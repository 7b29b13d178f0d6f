use vstd::prelude::*;
use crate::coord::Coord;
use crate::moves::{get_square, is_king_attacked, is_legal_move, is_pseudo_move};
use crate::pieces::{PieceColor, PieceMove, PieceType};
use crate::rules::{
    at, checkmate, has_legal_move, in_check, last_row, legal_move, on_board, pseudo_move, set_at, stalemate, Board, Square,
};

verus! {

/// After this many consecutive plies without a pawn move or a capture the game is drawn.
pub const DRAW_PLY_LIMIT: u32 = 50;

/// What the cell (r, c) holds in the starting position.
pub open spec fn initial_square(r: int, c: int) -> Square {
    let color = if r < 2 { PieceColor::Black } else { PieceColor::White };
    if r == 1 || r == 6 {
        Some((PieceType::Pawn, color))
    } else if r == 0 || r == 7 {
        let kind = if c == 0 || c == 7 {
            PieceType::Rook
        } else if c == 1 || c == 6 {
            PieceType::Knight
        } else if c == 2 || c == 5 {
            PieceType::Bishop
        } else if c == 3 {
            PieceType::Queen
        } else {
            PieceType::King
        };
        Some((kind, color))
    } else {
        None
    }
}

pub open spec fn is_initial(s: Seq<Square>) -> bool {
    s.len() == 64 && forall|r: int, c: int| on_board(r, c) ==> #[trigger] at(s, r, c) == initial_square(r, c)
}

/// The last ply moved a pawn of its side onto the last row and it has not been promoted.
pub open spec fn latest_promotion(hist: Seq<PieceMove>) -> bool {
    hist.len() > 0 && hist.last().piece_type == PieceType::Pawn
        && hist.last().to.row as int == last_row(hist.last().piece_color)
}

/// The draw counter after a ply that moved a piece of `kind`, capturing or not.
pub open spec fn counter_after(n: u32, kind: PieceType, capture: bool) -> u32 {
    if kind == PieceType::Pawn || capture {
        0
    } else if n < u32::MAX {
        (n + 1) as u32
    } else {
        u32::MAX
    }
}

pub open spec fn legal_targets(s: Seq<Square>, hist: Seq<PieceMove>, color: PieceColor, from: Coord, to: Coord) -> bool {
    from.valid() && to.valid() && legal_move(s, hist, color, from.row as int, from.col as int, to.row as int, to.col as int)
}

fn initial_piece(r: usize, c: usize) -> (sq: Square)
    ensures
        sq == initial_square(r as int, c as int),
{
    let color = if r < 2 { PieceColor::Black } else { PieceColor::White };
    if r == 1 || r == 6 {
        Some((PieceType::Pawn, color))
    } else if r == 0 || r == 7 {
        let kind = if c == 0 || c == 7 {
            PieceType::Rook
        } else if c == 1 || c == 6 {
            PieceType::Knight
        } else if c == 2 || c == 5 {
            PieceType::Bishop
        } else if c == 3 {
            PieceType::Queen
        } else {
            PieceType::King
        };
        Some((kind, color))
    } else {
        None
    }
}

/// The grid of the starting position.
pub fn starting_board() -> (b: Board)
    ensures
        is_initial(b@),
{
    let mut b: Board = [None; 64];
    let mut r: usize = 0;
    while r < 8
        invariant
            r <= 8,
            forall|i: int, j: int| 0 <= i < r && 0 <= j < 8 ==> #[trigger] at(b@, i, j) == initial_square(i, j),
        decreases 8 - r,
    {
        let mut c: usize = 0;
        while c < 8
            invariant
                r < 8,
                c <= 8,
                forall|i: int, j: int|
                    ((0 <= i < r && 0 <= j < 8) || (i == r && 0 <= j < c))
                        ==> #[trigger] at(b@, i, j) == initial_square(i, j),
            decreases 8 - c,
        {
            let ghost prev = b@;
            b[r * 8 + c] = initial_piece(r, c);
            assert forall|i: int, j: int|
                ((0 <= i < r && 0 <= j < 8) || (i == r && 0 <= j <= c))
                    implies #[trigger] at(b@, i, j) == initial_square(i, j) by {
                if i != r || j != c {
                    assert(i * 8 + j != r * 8 + c);
                    assert(at(prev, i, j) == initial_square(i, j));
                }
            }
            c += 1;
        }
        r += 1;
    }
    b
}

/// The grid with its move log, its snapshot log and the draw counter.
#[derive(Clone)]
pub struct GameBoard {
    /// The current placement of the pieces
    pub board: Board,
    /// One entry per applied ply
    pub move_history: Vec<PieceMove>,
    /// The initial grid, then the grid after each ply
    pub board_history: Vec<Board>,
    /// Plies since the last pawn move or capture
    pub consecutive_non_pawn_or_capture: u32,
    /// Whether the display shows the grid upside down; never read by the rules
    pub is_flipped: bool,
}

impl GameBoard {
    /// `color` is stalemated or the draw counter has reached its limit.
    pub open spec fn drawn(&self, color: PieceColor) -> bool {
        stalemate(self.board@, self.move_history@, color) || self.consecutive_non_pawn_or_capture >= DRAW_PLY_LIMIT
    }

    pub open spec fn mated(&self, color: PieceColor) -> bool {
        checkmate(self.board@, self.move_history@, color)
    }

    /// One snapshot per ply plus the initial one, the last of them the current grid, and
    /// only valid cells in the log.
    pub open spec fn wf(&self) -> bool {
        &&& self.board_history@.len() == self.move_history@.len() + 1
        &&& self.board_history@.last() == self.board
        &&& forall|i: int|
            0 <= i < self.move_history@.len() ==> (#[trigger] self.move_history@[i]).from.valid()
                && self.move_history@[i].to.valid()
    }

    pub open spec fn legal(&self, color: PieceColor, from: Coord, to: Coord) -> bool {
        legal_targets(self.board@, self.move_history@, color, from, to)
    }

    /// A board holding `board`, with empty logs.
    pub fn new(board: Board) -> (r: GameBoard)
        ensures
            r.wf(),
            r.board == board,
            r.move_history@ == Seq::<PieceMove>::empty(),
            r.board_history@ == seq![board],
            r.consecutive_non_pawn_or_capture == 0,
            !r.is_flipped,
    {
        GameBoard {
            board,
            move_history: Vec::new(),
            board_history: vec![board],
            consecutive_non_pawn_or_capture: 0,
            is_flipped: false,
        }
    }

    /// The content of `coord`; nothing for an invalid coordinate.
    pub fn get_piece(&self, coord: &Coord) -> (r: Square)
        ensures
            r == if coord.valid() { at(self.board@, coord.row as int, coord.col as int) } else { None },
    {
        if coord.is_valid() {
            get_square(&self.board, coord.row as usize, coord.col as usize)
        } else {
            None
        }
    }

    pub fn get_piece_type(&self, coord: &Coord) -> (r: Option<PieceType>)
        ensures
            r == match self.get_piece_spec(*coord) {
                Some((k, _)) => Some(k),
                None => None::<PieceType>,
            },
    {
        match self.get_piece(coord) {
            Some((k, _)) => Some(k),
            None => None,
        }
    }

    pub fn get_piece_color(&self, coord: &Coord) -> (r: Option<PieceColor>)
        ensures
            r == match self.get_piece_spec(*coord) {
                Some((_, c)) => Some(c),
                None => None::<PieceColor>,
            },
    {
        match self.get_piece(coord) {
            Some((_, c)) => Some(c),
            None => None,
        }
    }

    pub open spec fn get_piece_spec(&self, coord: Coord) -> Square {
        if coord.valid() { at(self.board@, coord.row as int, coord.col as int) } else { None }
    }

    /// A target of the piece on `from`: legal for `color` when `safe`, else by pattern only.
    pub open spec fn target(&self, color: PieceColor, from: Coord, to: Coord, safe: bool) -> bool {
        if safe {
            self.legal(color, from, to)
        } else {
            from.valid() && to.valid() && pseudo_move(
                self.board@,
                self.move_history@,
                from.row as int,
                from.col as int,
                to.row as int,
                to.col as int,
            )
        }
    }

    /// The cells to which `color` may legally move the piece on `from`, in row-major order.
    pub fn get_authorized_positions(&self, color: PieceColor, from: Coord) -> (r: Vec<Coord>)
        ensures
            forall|c: Coord| #[trigger] r@.contains(c) <==> self.legal(color, from, c),
            forall|i: int| 0 <= i < r@.len() ==> self.legal(color, from, #[trigger] r@[i]),
    {
        self.collect_targets(color, from, true)
    }

    /// The cells that the piece on `from` reaches by its pattern, castling and en passant
    /// included, whether or not its king is struck afterwards; in row-major order.
    pub fn pseudo_legal_destinations(&self, from: Coord) -> (r: Vec<Coord>)
        ensures
            forall|c: Coord| #[trigger]
                r@.contains(c) <==> from.valid() && c.valid() && pseudo_move(
                    self.board@,
                    self.move_history@,
                    from.row as int,
                    from.col as int,
                    c.row as int,
                    c.col as int,
                ),
    {
        self.collect_targets(PieceColor::White, from, false)
    }

    fn collect_targets(&self, color: PieceColor, from: Coord, safe: bool) -> (r: Vec<Coord>)
        ensures
            forall|c: Coord| #[trigger] r@.contains(c) <==> self.target(color, from, c, safe),
            forall|i: int| 0 <= i < r@.len() ==> self.target(color, from, #[trigger] r@[i], safe),
    {
        let mut r: Vec<Coord> = Vec::new();
        if !from.is_valid() {
            return r;
        }
        let fr = from.row as usize;
        let fc = from.col as usize;
        let mut tr: usize = 0;
        while tr < 8
            invariant
                tr <= 8,
                fr < 8,
                fc < 8,
                from.valid(),
                fr == from.row,
                fc == from.col,
                forall|i: int| 0 <= i < r@.len() ==> self.target(color, from, #[trigger] r@[i], safe) && r@[i].row < tr,
                forall|c: Coord| c.row < tr && self.target(color, from, c, safe) ==> #[trigger] r@.contains(c),
            decreases 8 - tr,
        {
            let mut tc: usize = 0;
            while tc < 8
                invariant
                    tr < 8,
                    tc <= 8,
                    fr < 8,
                    fc < 8,
                    from.valid(),
                    fr == from.row,
                    fc == from.col,
                    forall|i: int|
                        0 <= i < r@.len() ==> self.target(color, from, #[trigger] r@[i], safe)
                            && (r@[i].row < tr || (r@[i].row == tr && r@[i].col < tc)),
                    forall|c: Coord|
                        (c.row < tr || (c.row == tr && c.col < tc)) && self.target(color, from, c, safe)
                            ==> #[trigger] r@.contains(c),
                decreases 8 - tc,
            {
                let ok = if safe {
                    is_legal_move(&self.board, &self.move_history, color, fr, fc, tr, tc)
                } else {
                    is_pseudo_move(&self.board, &self.move_history, fr, fc, tr, tc)
                };
                if ok {
                    let to = Coord { row: tr as u8, col: tc as u8 };
                    let ghost old_r = r@;
                    r.push(to);
                    proof {
                        assert(r@[old_r.len() as int] == to);
                        assert forall|c: Coord|
                            (c.row < tr || (c.row == tr && c.col <= tc)) && self.target(color, from, c, safe)
                                implies #[trigger] r@.contains(c) by {
                            if c == to {
                                assert(r@[old_r.len() as int] == c);
                            } else {
                                assert(old_r.contains(c));
                                let k = choose|k: int| 0 <= k < old_r.len() && old_r[k] == c;
                                assert(r@[k] == c);
                            }
                        }
                    }
                }
                tc += 1;
            }
            tr += 1;
        }
        proof {
            assert forall|c: Coord| #[trigger] r@.contains(c) implies self.target(color, from, c, safe) by {
                let k = choose|k: int| 0 <= k < r@.len() && r@[k] == c;
                assert(self.target(color, from, r@[k], safe));
            }
        }
        r
    }

    /// Puts `piece` on `coord`, replacing what stood there; no rule is checked and the
    /// logs are left as they are.
    pub fn place(&mut self, coord: &Coord, piece: (PieceType, PieceColor))
        requires
            coord.valid(),
        ensures
            final(self).board@ == set_at(old(self).board@, coord.row as int, coord.col as int, Some(piece)),
            final(self).move_history == old(self).move_history,
            final(self).board_history == old(self).board_history,
            final(self).consecutive_non_pawn_or_capture == old(self).consecutive_non_pawn_or_capture,
            final(self).is_flipped == old(self).is_flipped,
    {
        self.board[coord.row as usize * 8 + coord.col as usize] = Some(piece);
    }

    /// Empties `coord`; no rule is checked and the logs are left as they are.
    pub fn clear(&mut self, coord: &Coord)
        requires
            coord.valid(),
        ensures
            final(self).board@ == set_at(old(self).board@, coord.row as int, coord.col as int, None),
            final(self).move_history == old(self).move_history,
            final(self).board_history == old(self).board_history,
            final(self).consecutive_non_pawn_or_capture == old(self).consecutive_non_pawn_or_capture,
            final(self).is_flipped == old(self).is_flipped,
    {
        self.board[coord.row as usize * 8 + coord.col as usize] = None;
    }

    /// Whether a king of `color` is struck.
    pub fn is_getting_checked(&self, color: PieceColor) -> (r: bool)
        ensures
            r == in_check(self.board@, color),
    {
        is_king_attacked(&self.board, color)
    }

    /// Whether `color` has at least one legal move.
    pub fn has_legal_moves(&self, color: PieceColor) -> (r: bool)
        ensures
            r == has_legal_move(self.board@, self.move_history@, color),
    {
        let mut fr: u8 = 0;
        while fr < 8
            invariant
                fr <= 8,
                forall|i: int, j: int, tr: int, tc: int|
                    0 <= i < fr ==> !(#[trigger] legal_move(self.board@, self.move_history@, color, i, j, tr, tc)),
            decreases 8 - fr,
        {
            let mut fc: u8 = 0;
            while fc < 8
                invariant
                    fr < 8,
                    fc <= 8,
                    forall|i: int, j: int, tr: int, tc: int|
                        (0 <= i < fr || (i == fr && j < fc))
                            ==> !(#[trigger] legal_move(self.board@, self.move_history@, color, i, j, tr, tc)),
                decreases 8 - fc,
            {
                let from = Coord { row: fr, col: fc };
                let targets = self.get_authorized_positions(color, from);
                if targets.len() > 0 {
                    let to = targets[0];
                    assert(self.legal(color, from, targets@[0]));
                    assert(legal_move(self.board@, self.move_history@, color, fr as int, fc as int, to.row as int, to.col as int));
                    return true;
                }
                assert forall|tr: int, tc: int|
                    !(#[trigger] legal_move(self.board@, self.move_history@, color, fr as int, fc as int, tr, tc)) by {
                    if on_board(tr, tc) {
                        let to = Coord { row: tr as u8, col: tc as u8 };
                        assert(!targets@.contains(to));
                    }
                }
                fc += 1;
            }
            fr += 1;
        }
        assert forall|i: int, j: int, tr: int, tc: int|
            !(#[trigger] legal_move(self.board@, self.move_history@, color, i, j, tr, tc)) by {
            if !(0 <= i < 8) {
                assert(!on_board(i, j));
            }
        }
        false
    }

    /// `color` is struck and has no legal move.
    pub fn is_checkmate(&self, color: PieceColor) -> (r: bool)
        ensures
            r == self.mated(color),
    {
        self.is_getting_checked(color) && !self.has_legal_moves(color)
    }

    /// `color` is stalemated, or the draw counter has reached its limit.
    pub fn is_draw(&self, color: PieceColor) -> (r: bool)
        ensures
            r == self.drawn(color),
    {
        self.consecutive_non_pawn_or_capture >= DRAW_PLY_LIMIT || (!self.is_getting_checked(color)
            && !self.has_legal_moves(color))
    }

    /// Whether the last ply brought a pawn to its last row and awaits the choice of a piece.
    pub fn is_latest_move_promotion(&self) -> (r: bool)
        ensures
            r == latest_promotion(self.move_history@),
    {
        if self.move_history.len() == 0 {
            return false;
        }
        let m = self.move_history[self.move_history.len() - 1];
        let last: u8 = match m.piece_color {
            PieceColor::White => 0,
            PieceColor::Black => 7,
        };
        m.piece_type == PieceType::Pawn && m.to.row == last
    }

    /// Resets the draw counter after a pawn move or a capture, else counts one more ply
    /// (it stays at its maximum once there).
    pub fn increment_consecutive_non_pawn_or_capture(&mut self, piece_type_from: PieceType, piece_type_to: Option<PieceType>)
        ensures
            final(self).consecutive_non_pawn_or_capture == counter_after(
                old(self).consecutive_non_pawn_or_capture,
                piece_type_from,
                piece_type_to is Some,
            ),
            final(self).board == old(self).board,
            final(self).move_history == old(self).move_history,
            final(self).board_history == old(self).board_history,
            final(self).is_flipped == old(self).is_flipped,
    {
        let capture = match piece_type_to {
            Some(_) => true,
            None => false,
        };
        if piece_type_from == PieceType::Pawn || capture {
            self.consecutive_non_pawn_or_capture = 0;
        } else if self.consecutive_non_pawn_or_capture < u32::MAX {
            self.consecutive_non_pawn_or_capture = self.consecutive_non_pawn_or_capture + 1;
        }
    }

    /// Turns the displayed grid upside down; the cells and the logs stay as they are.
    pub fn flip_the_board(&mut self)
        ensures
            final(self).is_flipped == !old(self).is_flipped,
            final(self).board == old(self).board,
            final(self).move_history == old(self).move_history,
            final(self).board_history == old(self).board_history,
            final(self).consecutive_non_pawn_or_capture == old(self).consecutive_non_pawn_or_capture,
    {
        self.is_flipped = !self.is_flipped;
    }

    /// Back to the starting position with empty logs.
    pub fn reset(&mut self)
        ensures
            final(self).wf(),
            is_initial(final(self).board@),
            final(self).move_history@.len() == 0,
            final(self).board_history@ == seq![final(self).board],
            final(self).consecutive_non_pawn_or_capture == 0,
            !final(self).is_flipped,
    {
        *self = GameBoard::new(starting_board());
    }
}

impl Default for GameBoard {
    fn default() -> (r: GameBoard)
        ensures
            r.wf(),
            is_initial(r.board@),
            r.move_history@.len() == 0,
            r.board_history@ == seq![r.board],
            r.consecutive_non_pawn_or_capture == 0,
            !r.is_flipped,
    {
        GameBoard::new(starting_board())
    }
}

} // verus!
