use vstd::prelude::*;
use crate::coord::Coord;
use crate::game_board::{counter_after, is_initial, latest_promotion, GameBoard};
use crate::moves::{apply_move, get_square, is_legal_move};
use crate::pieces::{opposite_spec, PieceColor, PieceMove, PieceType};
use crate::rules::{apply, at, set_at, Square};
use crate::ui::UI;

verus! {

/// Where a game stands between two plies.
#[derive(Clone, Copy, Debug, PartialEq, Eq, Structural)]
pub enum GameState {
    Checkmate,
    Draw,
    Playing,
    Promotion,
}

/// The piece that the promotion popup entry `cursor` stands for.
pub open spec fn promotion_kind(cursor: i8) -> PieceType {
    if cursor == 0 {
        PieceType::Queen
    } else if cursor == 1 {
        PieceType::Rook
    } else if cursor == 2 {
        PieceType::Bishop
    } else {
        PieceType::Knight
    }
}

/// The grid with the piece on `to` replaced by a piece of `kind` of the same side.
pub open spec fn promoted_board(s: Seq<Square>, to: Coord, kind: PieceType) -> Seq<Square> {
    match at(s, to.row as int, to.col as int) {
        Some((_, c)) => set_at(s, to.row as int, to.col as int, Some((kind, c))),
        None => s,
    }
}

/// The state of a game in play once `turn` is to move on `gb`: checkmate and draw come
/// first, then a promotion, which only a ply just played (`ply`) can leave pending;
/// otherwise `state` stays.
pub open spec fn next_state(gb: GameBoard, turn: PieceColor, state: GameState, ply: bool) -> GameState {
    if gb.mated(turn) {
        GameState::Checkmate
    } else if gb.drawn(turn) {
        GameState::Draw
    } else if ply && latest_promotion(gb.move_history@) {
        GameState::Promotion
    } else {
        state
    }
}

/// `next` is `g` after the piece chosen in the promotion popup replaced the pawn that
/// the last ply brought to its last row: the last log entry and the last snapshot are
/// rewritten in place, the popup cursor goes back to its first entry, the view flips
/// unless the game is over, and terminal positions end the game.
pub open spec fn promoted(g: Game, next: Game) -> bool {
    let hist = g.game_board.move_history@;
    let kind = promotion_kind(g.ui.promotion_cursor);
    &&& next.player_turn == g.player_turn
    &&& next.ui == (UI { promotion_cursor: 0, ..g.ui })
    &&& next.game_board.consecutive_non_pawn_or_capture == g.game_board.consecutive_non_pawn_or_capture
    &&& next.game_board.move_history@.len() == hist.len()
    &&& (hist.len() > 0 ==> {
        &&& next.game_board.move_history@ == hist.update(hist.len() - 1, PieceMove { piece_type: kind, ..hist.last() })
        &&& next.game_board.board@ == promoted_board(g.game_board.board@, hist.last().to, kind)
        &&& next.game_board.board_history@ == g.game_board.board_history@.update(hist.len() as int, next.game_board.board)
    })
    &&& (hist.len() == 0 ==> next.game_board.board == g.game_board.board
        && next.game_board.move_history == g.game_board.move_history
        && next.game_board.board_history == g.game_board.board_history)
    &&& next.game_board.is_flipped == (g.game_board.is_flipped != !(next.game_board.drawn(next.player_turn)
        || next.game_board.mated(next.player_turn)))
    &&& next.game_state == next_state(next.game_board, next.player_turn, GameState::Playing, false)
}

/// One game: the board, the selection state, the side to move and the state.
#[derive(Clone)]
pub struct Game {
    /// The grid and its logs
    pub game_board: GameBoard,
    /// The selection state of the board view
    pub ui: UI,
    /// Which side is to move
    pub player_turn: PieceColor,
    /// The current state of the game (Playing, Draw, Checkmate, Promotion)
    pub game_state: GameState,
}

impl Game {
    /// The board's logs are consistent (see `GameBoard::wf`).
    pub open spec fn wf(&self) -> bool {
        self.game_board.wf()
    }

    /// A new game: starting position with empty logs, initial selection state, White to
    /// move, in play.
    pub open spec fn fresh(&self) -> bool {
        &&& self.wf()
        &&& is_initial(self.game_board.board@)
        &&& self.game_board.move_history@.len() == 0
        &&& self.game_board.board_history@ == seq![self.game_board.board]
        &&& self.game_board.consecutive_non_pawn_or_capture == 0
        &&& !self.game_board.is_flipped
        &&& self.ui.initial()
        &&& self.player_turn == PieceColor::White
        &&& self.game_state == GameState::Playing
    }

    /// `next` is this game after `player_turn` moved the piece on `from` to `to`.
    pub open spec fn played(&self, next: Game, from: Coord, to: Coord) -> bool {
        let gb = self.game_board;
        let (fr, fc, tr, tc) = (from.row as int, from.col as int, to.row as int, to.col as int);
        &&& next.game_board.board@ == apply(gb.board@, gb.move_history@, fr, fc, tr, tc)
        &&& next.game_board.move_history@ == gb.move_history@.push(
            PieceMove { piece_type: at(gb.board@, fr, fc)->Some_0.0, piece_color: self.player_turn, from, to },
        )
        &&& next.game_board.board_history@ == gb.board_history@.push(next.game_board.board)
        &&& next.game_board.consecutive_non_pawn_or_capture == counter_after(
            gb.consecutive_non_pawn_or_capture,
            at(gb.board@, fr, fc)->Some_0.0,
            at(gb.board@, tr, tc) is Some,
        )
    }

    /// A game on `game_board` with `player_turn` to move.
    pub fn new(game_board: GameBoard, player_turn: PieceColor) -> (r: Game)
        requires
            game_board.wf(),
        ensures
            r.wf(),
            r.game_board == game_board,
            r.ui.initial(),
            r.player_turn == player_turn,
            r.game_state == GameState::Playing,
    {
        Game { game_board, ui: UI::default(), player_turn, game_state: GameState::Playing }
    }

    /// Replaces the board.
    pub fn set_board(&mut self, game_board: GameBoard)
        ensures
            *final(self) == (Game { game_board, ..*old(self) }),
    {
        self.game_board = game_board;
    }

    /// Sets the side to move.
    pub fn set_player_turn(&mut self, player_turn: PieceColor)
        ensures
            *final(self) == (Game { player_turn, ..*old(self) }),
    {
        self.player_turn = player_turn;
    }

    /// Hands the move to the other side.
    pub fn switch_player_turn(&mut self)
        ensures
            *final(self) == (Game { player_turn: opposite_spec(old(self).player_turn), ..*old(self) }),
    {
        self.player_turn = self.player_turn.opposite();
    }

    /// Moves the piece on `from` to `to` for the side to move, with the side effects of
    /// castling and en passant, and logs the ply. A move that is not legal changes nothing.
    pub fn execute_move(&mut self, from: &Coord, to: &Coord)
        requires
            old(self).wf(),
        ensures
            final(self).wf(),
            old(self).game_board.legal(old(self).player_turn, *from, *to) ==> old(self).played(*final(self), *from, *to)
                && final(self).ui == old(self).ui && final(self).player_turn == old(self).player_turn
                && final(self).game_state == old(self).game_state
                && final(self).game_board.is_flipped == old(self).game_board.is_flipped,
            !old(self).game_board.legal(old(self).player_turn, *from, *to) ==> *final(self) == *old(self),
    {
        if !from.is_valid() || !to.is_valid() {
            return;
        }
        let fr = from.row as usize;
        let fc = from.col as usize;
        let tr = to.row as usize;
        let tc = to.col as usize;
        if !is_legal_move(&self.game_board.board, &self.game_board.move_history, self.player_turn, fr, fc, tr, tc) {
            return;
        }
        let piece_type_from = get_square(&self.game_board.board, fr, fc).unwrap().0;
        let piece_type_to = self.game_board.get_piece_type(to);
        self.game_board.increment_consecutive_non_pawn_or_capture(piece_type_from, piece_type_to);
        let nb = apply_move(&self.game_board.board, &self.game_board.move_history, fr, fc, tr, tc);
        self.game_board.board = nb;
        self.game_board.move_history.push(
            PieceMove { piece_type: piece_type_from, piece_color: self.player_turn, from: *from, to: *to },
        );
        self.game_board.board_history.push(nb);
    }

    /// Replaces the pawn that just reached its last row by the piece chosen in the
    /// promotion popup, rewriting the last log entry and the last snapshot in place,
    /// then ends the game if the new position is checkmate or drawn.
    pub fn promote_piece(&mut self)
        requires
            old(self).wf(),
            0 <= old(self).ui.promotion_cursor < 4,
        ensures
            final(self).wf(),
            promoted(*old(self), *final(self)),
    {
        let n = self.game_board.move_history.len();
        if n > 0 {
            let last = self.game_board.move_history[n - 1];
            let new_piece = match self.ui.promotion_cursor {
                0 => PieceType::Queen,
                1 => PieceType::Rook,
                2 => PieceType::Bishop,
                _ => PieceType::Knight,
            };
            let idx = last.to.row as usize * 8 + last.to.col as usize;
            match self.game_board.board[idx] {
                Some((_, color)) => {
                    self.game_board.board[idx] = Some((new_piece, color));
                },
                None => {},
            }
            self.game_board.move_history[n - 1] = PieceMove { piece_type: new_piece, ..last };
            self.game_board.board_history[n] = self.game_board.board;
        }
        self.game_state = GameState::Playing;
        self.ui.promotion_cursor = 0;
        if !self.game_board.is_draw(self.player_turn) && !self.game_board.is_checkmate(self.player_turn) {
            self.game_board.flip_the_board();
        }
        self.update_game_state(false);
    }

    /// Applies the choice made in the promotion popup.
    pub fn handle_promotion(&mut self)
        requires
            old(self).wf(),
            0 <= old(self).ui.promotion_cursor < 4,
        ensures
            final(self).wf(),
            promoted(*old(self), *final(self)),
    {
        self.promote_piece();
    }

    /// Selects the piece under the cursor when it has a legal move, and puts the cursor
    /// on its first legal target; otherwise nothing changes.
    pub fn select_cell(&mut self)
        ensures
            !(exists|c: Coord| old(self).game_board.legal(old(self).player_turn, old(self).ui.cursor_coordinates, c))
                ==> *final(self) == *old(self),
            (exists|c: Coord| old(self).game_board.legal(old(self).player_turn, old(self).ui.cursor_coordinates, c))
                ==> {
                &&& final(self).game_board == old(self).game_board
                &&& final(self).player_turn == old(self).player_turn
                &&& final(self).game_state == old(self).game_state
                &&& final(self).ui.selected_coordinates == old(self).ui.cursor_coordinates
                &&& final(self).ui.old_cursor_position == old(self).ui.cursor_coordinates
                &&& final(self).ui.selected_piece_cursor == 0
                &&& final(self).ui.promotion_cursor == old(self).ui.promotion_cursor
                &&& final(self).ui.display_mode == old(self).ui.display_mode
                &&& old(self).game_board.legal(old(self).player_turn, old(self).ui.cursor_coordinates, final(self).ui.cursor_coordinates)
            },
    {
        let authorized_positions = self.game_board.get_authorized_positions(self.player_turn, self.ui.cursor_coordinates);
        if authorized_positions.len() == 0 {
            proof {
                assert forall|c: Coord| !self.game_board.legal(self.player_turn, self.ui.cursor_coordinates, c) by {
                    assert(!authorized_positions@.contains(c));
                }
            }
            return;
        }
        assert(self.game_board.legal(self.player_turn, self.ui.cursor_coordinates, authorized_positions@[0]));
        self.ui.selected_coordinates = self.ui.cursor_coordinates;
        self.ui.old_cursor_position = self.ui.cursor_coordinates;
        self.ui.move_selected_piece_cursor(true, 1, &authorized_positions);
    }

    /// With a piece selected, tries to move it to the cursor. A legal move is played,
    /// hands the turn over and flips the view unless a promotion is pending; the
    /// selection is dropped either way.
    pub fn already_selected_cell_action(&mut self)
        requires
            old(self).wf(),
        ensures
            final(self).wf(),
            !old(self).ui.cursor_coordinates.valid() ==> *final(self) == *old(self),
            old(self).ui.cursor_coordinates.valid() ==> final(self).ui == (UI {
                selected_coordinates: Coord { row: 255, col: 255 },
                ..old(self).ui
            }),
            old(self).ui.cursor_coordinates.valid() && !old(self).game_board.legal(
                old(self).player_turn,
                old(self).ui.selected_coordinates,
                old(self).ui.cursor_coordinates,
            ) ==> final(self).game_board == old(self).game_board && final(self).player_turn == old(self).player_turn
                && final(self).game_state == old(self).game_state,
            old(self).ui.cursor_coordinates.valid() && old(self).game_board.legal(
                old(self).player_turn,
                old(self).ui.selected_coordinates,
                old(self).ui.cursor_coordinates,
            ) ==> {
                let gb = final(self).game_board;
                let turn = final(self).player_turn;
                &&& old(self).played(*final(self), old(self).ui.selected_coordinates, old(self).ui.cursor_coordinates)
                &&& turn == opposite_spec(old(self).player_turn)
                &&& final(self).game_state == if gb.drawn(turn) { GameState::Draw } else { old(self).game_state }
                &&& gb.move_history@.len() == old(self).game_board.move_history@.len() + 1
                &&& gb.is_flipped == (old(self).game_board.is_flipped != (!latest_promotion(gb.move_history@)
                    || gb.drawn(turn) || gb.mated(turn)))
            },
    {
        if self.ui.cursor_coordinates.is_valid() {
            let selected = self.ui.selected_coordinates;
            let cursor = self.ui.cursor_coordinates;
            let before = self.game_board.move_history.len();
            self.execute_move(&selected, &cursor);
            self.ui.unselect_cell();
            if self.game_board.move_history.len() == before {
                return;
            }
            self.switch_player_turn();
            if self.game_board.is_draw(self.player_turn) {
                self.game_state = GameState::Draw;
            }
            if !self.game_board.is_latest_move_promotion() || self.game_board.is_draw(self.player_turn)
                || self.game_board.is_checkmate(self.player_turn) {
                self.game_board.flip_the_board();
            }
        }
    }

    /// Sets the state from the position: checkmate, draw, a promotion left pending by a
    /// ply just played (`ply`), else unchanged.
    fn update_game_state(&mut self, ply: bool)
        ensures
            *final(self) == (Game {
                game_state: next_state(old(self).game_board, old(self).player_turn, old(self).game_state, ply),
                ..*old(self)
            }),
    {
        if self.game_board.is_checkmate(self.player_turn) {
            self.game_state = GameState::Checkmate;
        } else if self.game_board.is_draw(self.player_turn) {
            self.game_state = GameState::Draw;
        } else if ply && self.game_board.is_latest_move_promotion() {
            self.game_state = GameState::Promotion;
        }
    }

    /// A click on the board: chooses the promotion piece while a promotion is pending;
    /// while playing, moves the selected piece or selects one, then updates the state;
    /// a finished game ignores it.
    pub fn handle_cell_click(&mut self)
        requires
            old(self).wf(),
            old(self).game_state == GameState::Promotion ==> 0 <= old(self).ui.promotion_cursor < 4,
        ensures
            final(self).wf(),
            old(self).game_state == GameState::Checkmate || old(self).game_state == GameState::Draw
                ==> *final(self) == *old(self),
            old(self).game_state == GameState::Promotion ==> promoted(*old(self), *final(self)),
            old(self).game_state == GameState::Playing && !old(self).ui.selected_coordinates.valid()
                ==> final(self).game_board == old(self).game_board && final(self).player_turn == old(self).player_turn
                && final(self).game_state == next_state(old(self).game_board, old(self).player_turn, GameState::Playing, false),
            old(self).game_state == GameState::Playing && old(self).ui.selected_coordinates.valid() && !(
            old(self).ui.cursor_coordinates.valid() && old(self).game_board.legal(
                old(self).player_turn,
                old(self).ui.selected_coordinates,
                old(self).ui.cursor_coordinates,
            )) ==> final(self).game_board == old(self).game_board && final(self).player_turn == old(self).player_turn
                && final(self).game_state == next_state(old(self).game_board, old(self).player_turn, GameState::Playing, false),
            old(self).game_state == GameState::Playing && old(self).ui.selected_coordinates.valid()
                && old(self).ui.cursor_coordinates.valid() && old(self).game_board.legal(
                old(self).player_turn,
                old(self).ui.selected_coordinates,
                old(self).ui.cursor_coordinates,
            ) ==> old(self).played(*final(self), old(self).ui.selected_coordinates, old(self).ui.cursor_coordinates)
                && final(self).player_turn == opposite_spec(old(self).player_turn)
                && !final(self).ui.selected_coordinates.valid()
                && final(self).game_state == next_state(
                final(self).game_board,
                final(self).player_turn,
                GameState::Playing,
                true,
            ),
    {
        if self.game_state == GameState::Promotion {
            self.handle_promotion();
        } else if self.game_state == GameState::Playing {
            if self.ui.is_cell_selected() {
                let before = self.game_board.move_history.len();
                self.already_selected_cell_action();
                let ply = self.game_board.move_history.len() != before;
                self.update_game_state(ply);
            } else {
                self.select_cell();
                self.update_game_state(false);
            }
        }
    }
}

impl Default for Game {
    fn default() -> (r: Game)
        ensures
            r.wf(),
            r.fresh(),
    {
        Game {
            game_board: GameBoard::default(),
            ui: UI::default(),
            player_turn: PieceColor::White,
            game_state: GameState::Playing,
        }
    }
}

} // verus!
