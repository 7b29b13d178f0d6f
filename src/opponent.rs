use vstd::prelude::*;
use crate::pieces::PieceColor;

verus! {

/// The side played by the move-suggesting process.
#[derive(Clone, Copy, Debug, PartialEq, Eq, Structural)]
pub struct Opponent {
    /// Whether the next ply is the opponent's
    pub opponent_will_move: bool,
    /// The side of the opponent
    pub color: PieceColor,
    /// Whether the game has started
    pub game_started: bool,
}

impl Opponent {
    /// A field-by-field copy.
    pub fn copy(&self) -> (r: Opponent)
        ensures
            r == *self,
    {
        Opponent {
            opponent_will_move: self.opponent_will_move,
            color: self.color,
            game_started: self.game_started,
        }
    }

    /// An opponent playing `color`, Black when none is given; it moves first when White.
    pub fn new(color: Option<PieceColor>) -> (r: Opponent)
        ensures
            r.color == match color {
                Some(c) => c,
                None => PieceColor::Black,
            },
            r.opponent_will_move == (r.color == PieceColor::White),
            !r.game_started,
    {
        let color = match color {
            Some(color) => color,
            None => PieceColor::Black,
        };
        let opponent_will_move = match color {
            PieceColor::White => true,
            PieceColor::Black => false,
        };
        Opponent { opponent_will_move, color, game_started: false }
    }
}

impl Default for Opponent {
    fn default() -> (r: Opponent)
        ensures
            !r.opponent_will_move,
            r.color == PieceColor::Black,
            !r.game_started,
    {
        Opponent { opponent_will_move: false, color: PieceColor::Black, game_started: false }
    }
}

} // verus!
