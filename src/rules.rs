use vstd::prelude::*;
use crate::coord::Coord;
use crate::pieces::{opposite_spec, PieceColor, PieceMove, PieceType};

verus! {

/// What one cell of the grid holds.
pub type Square = Option<(PieceType, PieceColor)>;

/// The 8x8 grid, row-major: the cell (row, col) is at index `row * 8 + col`.
pub type Board = [Square; 64];

pub open spec fn on_board(r: int, c: int) -> bool {
    0 <= r < 8 && 0 <= c < 8
}

pub open spec fn at(s: Seq<Square>, r: int, c: int) -> Square {
    s[r * 8 + c]
}

pub open spec fn abs(x: int) -> int {
    if x < 0 { -x } else { x }
}

pub open spec fn sign(x: int) -> int {
    if x > 0 { 1 } else if x < 0 { -1 } else { 0 }
}

/// `k` steps in the direction `s` (one of -1, 0, 1).
pub open spec fn offset(k: int, s: int) -> int {
    if s > 0 { k } else if s < 0 { -k } else { 0 }
}

pub open spec fn max(a: int, b: int) -> int {
    if a >= b { a } else { b }
}

/// The row delta of one pawn step for `color`: White moves towards row 0.
pub open spec fn forward(color: PieceColor) -> int {
    match color {
        PieceColor::White => -1,
        PieceColor::Black => 1,
    }
}

/// The row on which the pawns of `color` start.
pub open spec fn pawn_row(color: PieceColor) -> int {
    match color {
        PieceColor::White => 6,
        PieceColor::Black => 1,
    }
}

/// The back rank of `color`, where its king starts.
pub open spec fn home_row(color: PieceColor) -> int {
    match color {
        PieceColor::White => 7,
        PieceColor::Black => 0,
    }
}

/// The row on which a pawn of `color` is promoted.
pub open spec fn last_row(color: PieceColor) -> int {
    home_row(opposite_spec(color))
}

pub open spec fn holds_color(sq: Square, color: PieceColor) -> bool {
    match sq {
        Some((_, c)) => c == color,
        None => false,
    }
}

/// Every cell strictly between (fr, fc) and (tr, tc) on their line is empty.
pub open spec fn path_clear(s: Seq<Square>, fr: int, fc: int, tr: int, tc: int) -> bool {
    let n = max(abs(tr - fr), abs(tc - fc));
    forall|k: int|
        1 <= k < n ==> (#[trigger] at(s, fr + offset(k, sign(tr - fr)), fc + offset(k, sign(tc - fc)))) is None
}

pub open spec fn rook_line(fr: int, fc: int, tr: int, tc: int) -> bool {
    (fr == tr) != (fc == tc)
}

pub open spec fn bishop_line(fr: int, fc: int, tr: int, tc: int) -> bool {
    abs(tr - fr) == abs(tc - fc) && fr != tr
}

/// A piece of `kind` and `color` on (fr, fc) strikes (tr, tc), whatever stands there:
/// pawns strike the two cells diagonally ahead, sliders stop at the first piece.
pub open spec fn reaches(s: Seq<Square>, kind: PieceType, color: PieceColor, fr: int, fc: int, tr: int, tc: int) -> bool {
    let dr = tr - fr;
    let dc = tc - fc;
    match kind {
        PieceType::Pawn => dr == forward(color) && abs(dc) == 1,
        PieceType::Knight => (abs(dr) == 1 && abs(dc) == 2) || (abs(dr) == 2 && abs(dc) == 1),
        PieceType::King => abs(dr) <= 1 && abs(dc) <= 1 && !(dr == 0 && dc == 0),
        PieceType::Rook => rook_line(fr, fc, tr, tc) && path_clear(s, fr, fc, tr, tc),
        PieceType::Bishop => bishop_line(fr, fc, tr, tc) && path_clear(s, fr, fc, tr, tc),
        PieceType::Queen => (rook_line(fr, fc, tr, tc) || bishop_line(fr, fc, tr, tc)) && path_clear(s, fr, fc, tr, tc),
    }
}

/// The piece on (fr, fc), if any, strikes (tr, tc).
pub open spec fn attacks(s: Seq<Square>, fr: int, fc: int, tr: int, tc: int) -> bool {
    match at(s, fr, fc) {
        Some((kind, color)) => reaches(s, kind, color, fr, fc, tr, tc),
        None => false,
    }
}

/// Some piece of `by` strikes (tr, tc).
pub open spec fn attacked(s: Seq<Square>, tr: int, tc: int, by: PieceColor) -> bool {
    exists|fr: int, fc: int|
        on_board(fr, fc) && holds_color(at(s, fr, fc), by) && #[trigger] attacks(s, fr, fc, tr, tc)
}

/// A king of `color` stands on a cell that the other side strikes.
pub open spec fn in_check(s: Seq<Square>, color: PieceColor) -> bool {
    exists|r: int, c: int|
        on_board(r, c) && at(s, r, c) == Some((PieceType::King, color))
            && #[trigger] attacked(s, r, c, opposite_spec(color))
}

pub open spec fn at_coord(m: Coord, r: int, c: int) -> bool {
    m.row as int == r && m.col as int == c
}

/// Some ply of `hist` started or ended on (r, c): a piece that stands there now has
/// moved, or has replaced one that was taken there.
pub open spec fn touched(hist: Seq<PieceMove>, r: int, c: int) -> bool {
    exists|i: int| 0 <= i < hist.len() && (at_coord((#[trigger] hist[i]).from, r, c) || at_coord(hist[i].to, r, c))
}

/// The pawn on (fr, fc) takes en passant by moving to (tr, tc): the last ply was the
/// enemy pawn on (fr, tc) advancing two cells.
pub open spec fn en_passant(s: Seq<Square>, hist: Seq<PieceMove>, fr: int, fc: int, tr: int, tc: int) -> bool {
    match at(s, fr, fc) {
        Some((PieceType::Pawn, color)) => {
            let m = hist.last();
            hist.len() > 0 && m.piece_type == PieceType::Pawn && m.piece_color == opposite_spec(color)
                && at_coord(m.to, fr, tc) && m.from.col == m.to.col
                && m.from.row as int == pawn_row(opposite_spec(color)) && abs(m.from.row - m.to.row) == 2
                && tr == fr + forward(color) && abs(tc - fc) == 1
                && at(s, tr, tc) is None
                && at(s, fr, tc) == Some((PieceType::Pawn, opposite_spec(color)))
        },
        _ => false,
    }
}

/// The column of the rook that a king moving to column `tc` castles with.
pub open spec fn castle_rook_col(tc: int) -> int {
    if tc == 6 { 7 } else { 0 }
}

/// The column on which that rook lands: the cell the king passes over.
pub open spec fn castle_rook_target(tc: int) -> int {
    if tc == 6 { 5 } else { 3 }
}

/// The king on (fr, fc) castles by moving two cells to (tr, tc).
pub open spec fn castling(s: Seq<Square>, hist: Seq<PieceMove>, fr: int, fc: int, tr: int, tc: int) -> bool {
    match at(s, fr, fc) {
        Some((PieceType::King, color)) => {
            let rc = castle_rook_col(tc);
            let opp = opposite_spec(color);
            fr == home_row(color) && fc == 4 && tr == fr && (tc == 6 || tc == 2)
                && at(s, fr, rc) == Some((PieceType::Rook, color))
                && !touched(hist, fr, 4) && !touched(hist, fr, rc)
                && (forall|c: int| (if tc == 6 { 5 <= c < 7 } else { 1 <= c < 4 }) ==> (#[trigger] at(s, fr, c)) is None)
                && !attacked(s, fr, 4, opp) && !attacked(s, fr, castle_rook_target(tc), opp)
                && !attacked(s, fr, tc, opp)
        },
        _ => false,
    }
}

/// A pawn of `color` on (fr, fc) moves straight ahead to (tr, tc).
pub open spec fn pawn_push(s: Seq<Square>, color: PieceColor, fr: int, fc: int, tr: int, tc: int) -> bool {
    tc == fc && at(s, tr, tc) is None && (tr == fr + forward(color) || (fr == pawn_row(color)
        && tr == fr + 2 * forward(color) && at(s, fr + forward(color), fc) is None))
}

/// The piece on (fr, fc) may go to (tr, tc) by its own pattern, whether or not that
/// leaves its king struck.
pub open spec fn pseudo_move(s: Seq<Square>, hist: Seq<PieceMove>, fr: int, fc: int, tr: int, tc: int) -> bool {
    on_board(fr, fc) && on_board(tr, tc) && match at(s, fr, fc) {
        Some((kind, color)) => !holds_color(at(s, tr, tc), color) && match kind {
            PieceType::Pawn => pawn_push(s, color, fr, fc, tr, tc)
                || (attacks(s, fr, fc, tr, tc) && holds_color(at(s, tr, tc), opposite_spec(color)))
                || en_passant(s, hist, fr, fc, tr, tc),
            PieceType::King => attacks(s, fr, fc, tr, tc) || castling(s, hist, fr, fc, tr, tc),
            _ => attacks(s, fr, fc, tr, tc),
        },
        None => false,
    }
}

pub open spec fn set_at(s: Seq<Square>, r: int, c: int, v: Square) -> Seq<Square> {
    s.update(r * 8 + c, v)
}

/// The grid after the piece on (fr, fc) goes to (tr, tc), with the rook of a castling
/// relocated and the pawn taken en passant removed.
pub open spec fn apply(s: Seq<Square>, hist: Seq<PieceMove>, fr: int, fc: int, tr: int, tc: int) -> Seq<Square> {
    let p = at(s, fr, fc);
    if castling(s, hist, fr, fc, tr, tc) {
        let color = p->Some_0.1;
        let s1 = set_at(s, fr, castle_rook_col(tc), None);
        let s2 = set_at(s1, fr, castle_rook_target(tc), Some((PieceType::Rook, color)));
        set_at(set_at(s2, tr, tc, p), fr, fc, None)
    } else if en_passant(s, hist, fr, fc, tr, tc) {
        set_at(set_at(set_at(s, fr, tc, None), tr, tc, p), fr, fc, None)
    } else {
        set_at(set_at(s, tr, tc, p), fr, fc, None)
    }
}

/// `color` may move the piece on (fr, fc) to (tr, tc): its own piece, by its pattern,
/// and its king is not struck afterwards.
pub open spec fn legal_move(s: Seq<Square>, hist: Seq<PieceMove>, color: PieceColor, fr: int, fc: int, tr: int, tc: int) -> bool {
    pseudo_move(s, hist, fr, fc, tr, tc) && holds_color(at(s, fr, fc), color)
        && !in_check(apply(s, hist, fr, fc, tr, tc), color)
}

pub open spec fn has_legal_move(s: Seq<Square>, hist: Seq<PieceMove>, color: PieceColor) -> bool {
    exists|fr: int, fc: int, tr: int, tc: int| #[trigger] legal_move(s, hist, color, fr, fc, tr, tc)
}

pub open spec fn checkmate(s: Seq<Square>, hist: Seq<PieceMove>, color: PieceColor) -> bool {
    in_check(s, color) && !has_legal_move(s, hist, color)
}

pub open spec fn stalemate(s: Seq<Square>, hist: Seq<PieceMove>, color: PieceColor) -> bool {
    !in_check(s, color) && !has_legal_move(s, hist, color)
}

} // verus!
