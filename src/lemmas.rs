use vstd::prelude::*;
use crate::coord::Coord;
use crate::game::{next_state, Game, GameState};
use crate::game_board::{counter_after, latest_promotion, GameBoard, DRAW_PLY_LIMIT};
use crate::pieces::{opposite_spec, PieceColor, PieceMove, PieceType};
use crate::rules::{
    abs, apply, at, attacked, attacks, castle_rook_col, castle_rook_target, castling, forward, home_row, in_check,
    last_row, legal_move, on_board, pawn_row, en_passant, pseudo_move, stalemate,
};

verus! {

/// A target among the authorized positions never leaves the mover's king struck once
/// the move, with its side effects, is applied.
pub proof fn lemma_authorized_target_keeps_king_safe(gb: GameBoard, color: PieceColor, from: Coord, to: Coord)
    requires
        gb.legal(color, from, to),
    ensures
        !in_check(
            apply(gb.board@, gb.move_history@, from.row as int, from.col as int, to.row as int, to.col as int),
            color,
        ),
{
}

/// A legal move never takes a king, so each side keeps its king: the move could only
/// land on the enemy king if that king were already struck before the move.
pub proof fn lemma_legal_move_spares_kings(
    s: Seq<crate::rules::Square>,
    hist: Seq<PieceMove>,
    color: PieceColor,
    fr: int,
    fc: int,
    tr: int,
    tc: int,
)
    requires
        legal_move(s, hist, color, fr, fc, tr, tc),
        !in_check(s, opposite_spec(color)),
    ensures
        at(s, tr, tc) != Some((PieceType::King, opposite_spec(color))),
        at(s, tr, tc) != Some((PieceType::King, color)),
{
    if at(s, tr, tc) == Some((PieceType::King, opposite_spec(color))) {
        if attacks(s, fr, fc, tr, tc) {
            assert(attacked(s, tr, tc, color));
            assert(opposite_spec(opposite_spec(color)) == color);
            assert(in_check(s, opposite_spec(color)));
        }
    }
}

/// After a legal move is played, the side that moved is not in check.
pub proof fn lemma_played_move_leaves_mover_safe(g: Game, next: Game, from: Coord, to: Coord)
    requires
        g.game_board.legal(g.player_turn, from, to),
        g.played(next, from, to),
    ensures
        !in_check(next.game_board.board@, g.player_turn),
{
}

/// Playing a move keeps one snapshot more than there are logged plies.
pub proof fn lemma_played_move_keeps_history_aligned(g: Game, next: Game, from: Coord, to: Coord)
    requires
        g.wf(),
        from.valid(),
        to.valid(),
        g.played(next, from, to),
    ensures
        next.wf(),
        next.game_board.board_history@.len() == next.game_board.move_history@.len() + 1,
{
    let h = next.game_board.move_history@;
    assert forall|i: int| 0 <= i < h.len() implies (#[trigger] h[i]).from.valid() && h[i].to.valid() by {
        if i < g.game_board.move_history@.len() {
            assert(h[i] == g.game_board.move_history@[i]);
        }
    }
}

/// A castling relocates king and rook in one ply: the king lands two cells over, the
/// rook on the cell it passed, and both start cells are left empty.
pub proof fn lemma_castling_moves_king_and_rook(s: Seq<crate::rules::Square>, hist: Seq<PieceMove>, color: PieceColor, tc: int)
    requires
        s.len() == 64,
        castling(s, hist, home_row(color), 4, home_row(color), tc),
    ensures
        ({
            let r = home_row(color);
            let t = apply(s, hist, r, 4, r, tc);
            &&& at(t, r, tc) == at(s, r, 4)
            &&& at(t, r, castle_rook_target(tc)) == Some((PieceType::Rook, at(s, r, 4)->Some_0.1))
            &&& at(t, r, castle_rook_col(tc)) is None
            &&& at(t, r, 4) is None
        }),
{
}

/// The king may not castle when its cell, the cell it passes or the cell it lands on is
/// struck: that two-cell move is then not legal.
pub proof fn lemma_castling_through_check_excluded(
    s: Seq<crate::rules::Square>,
    hist: Seq<PieceMove>,
    color: PieceColor,
    tc: int,
)
    requires
        tc == 2 || tc == 6,
        at(s, home_row(color), 4) == Some((PieceType::King, color)),
        attacked(s, home_row(color), 4, opposite_spec(color))
            || attacked(s, home_row(color), castle_rook_target(tc), opposite_spec(color))
            || attacked(s, home_row(color), tc, opposite_spec(color)),
    ensures
        !legal_move(s, hist, color, home_row(color), 4, home_row(color), tc),
{
}

/// Right after an enemy pawn advanced two cells to stand beside a pawn, that pawn may
/// take it en passant: the empty cell behind the enemy pawn is among its targets.
pub proof fn lemma_en_passant_offered_after_double_step(
    s: Seq<crate::rules::Square>,
    hist: Seq<PieceMove>,
    color: PieceColor,
    fr: int,
    fc: int,
    tc: int,
)
    requires
        on_board(fr, fc),
        on_board(fr + forward(color), tc),
        at(s, fr, fc) == Some((PieceType::Pawn, color)),
        at(s, fr, tc) == Some((PieceType::Pawn, opposite_spec(color))),
        at(s, fr + forward(color), tc) is None,
        abs(tc - fc) == 1,
        hist.len() > 0,
        hist.last().piece_type == PieceType::Pawn,
        hist.last().piece_color == opposite_spec(color),
        hist.last().to.row as int == fr,
        hist.last().to.col as int == tc,
        hist.last().from.col == hist.last().to.col,
        hist.last().from.row as int == pawn_row(opposite_spec(color)),
        abs(hist.last().from.row - hist.last().to.row) == 2,
    ensures
        en_passant(s, hist, fr, fc, fr + forward(color), tc),
        pseudo_move(s, hist, fr, fc, fr + forward(color), tc),
{
}

/// A pawn may step diagonally onto an empty cell only right after the enemy pawn beside
/// it advanced two cells: once any other ply is the last one, that target is gone.
pub proof fn lemma_en_passant_only_after_double_step(
    s: Seq<crate::rules::Square>,
    hist: Seq<PieceMove>,
    color: PieceColor,
    fr: int,
    fc: int,
    tc: int,
)
    requires
        at(s, fr, fc) == Some((PieceType::Pawn, color)),
        at(s, fr + forward(color), tc) is None,
        abs(tc - fc) == 1,
        !(hist.len() > 0 && hist.last().piece_type == PieceType::Pawn
            && hist.last().piece_color == opposite_spec(color) && hist.last().to.row as int == fr
            && hist.last().to.col as int == tc && abs(hist.last().from.row - hist.last().to.row) == 2),
    ensures
        !pseudo_move(s, hist, fr, fc, fr + forward(color), tc),
{
}

/// A pawn brought to its last row leaves the game awaiting a promotion, unless the
/// position is checkmate or drawn for the side now to move.
pub proof fn lemma_pawn_on_last_row_awaits_promotion(g: Game, next: Game, from: Coord, to: Coord, turn: PieceColor)
    requires
        g.played(next, from, to),
        at(g.game_board.board@, from.row as int, from.col as int) == Some((PieceType::Pawn, g.player_turn)),
        to.row as int == last_row(g.player_turn),
        !next.game_board.mated(turn),
        !next.game_board.drawn(turn),
    ensures
        latest_promotion(next.game_board.move_history@),
        next_state(next.game_board, turn, GameState::Playing, true) == GameState::Promotion,
{
}

/// A pawn move or a capture resets the draw counter; any other ply adds one.
pub proof fn lemma_draw_counter_rules(n: u32, kind: PieceType, capture: bool)
    ensures
        kind == PieceType::Pawn || capture ==> counter_after(n, kind, capture) == 0,
        kind != PieceType::Pawn && !capture && n < u32::MAX ==> counter_after(n, kind, capture) == n + 1,
{
}

/// The counter after `k` plies without pawn move or capture, starting from `n`.
pub open spec fn quiet_plies(n: u32, k: nat) -> u32
    decreases k,
{
    if k == 0 {
        n
    } else {
        counter_after(quiet_plies(n, (k - 1) as nat), PieceType::Knight, false)
    }
}

/// After the limit of plies without pawn move or capture the game is drawn, for either
/// side to move.
pub proof fn lemma_quiet_plies_draw(gb: GameBoard, k: nat, color: PieceColor)
    requires
        k >= DRAW_PLY_LIMIT,
        gb.consecutive_non_pawn_or_capture == quiet_plies(0, k),
    ensures
        gb.drawn(color),
{
    lemma_quiet_plies_grow(k);
}

proof fn lemma_quiet_plies_grow(k: nat)
    ensures
        quiet_plies(0, k) == if k < u32::MAX { k as u32 } else { u32::MAX },
    decreases k,
{
    if k > 0 {
        lemma_quiet_plies_grow((k - 1) as nat);
    }
}

/// A side that is not in check and has no legal move is drawn, never checkmated.
pub proof fn lemma_stalemate_is_draw(gb: GameBoard, color: PieceColor, state: GameState, ply: bool)
    requires
        stalemate(gb.board@, gb.move_history@, color),
    ensures
        gb.drawn(color),
        !gb.mated(color),
        next_state(gb, color, state, ply) == GameState::Draw,
{
}

} // verus!
