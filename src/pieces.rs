use vstd::prelude::*;
use crate::coord::Coord;

verus! {

/// The two sides of a game.
#[derive(Clone, Copy, Debug, PartialEq, Eq, Structural)]
pub enum PieceColor {
    Black,
    White,
}

/// The six kinds of chess pieces.
#[derive(Clone, Copy, Debug, PartialEq, Eq, Structural)]
pub enum PieceType {
    Pawn,
    Rook,
    Bishop,
    Queen,
    King,
    Knight,
}

/// One applied ply: which piece moved, for which side, and between which squares.
#[derive(Clone, Copy, Debug, PartialEq, Eq, Structural)]
pub struct PieceMove {
    pub piece_type: PieceType,
    pub piece_color: PieceColor,
    pub from: Coord,
    pub to: Coord,
}

pub open spec fn opposite_spec(color: PieceColor) -> PieceColor {
    match color {
        PieceColor::White => PieceColor::Black,
        PieceColor::Black => PieceColor::White,
    }
}

impl PieceColor {
    /// The other side.
    pub fn opposite(self) -> (r: PieceColor)
        ensures
            r == opposite_spec(self),
    {
        match self {
            PieceColor::White => PieceColor::Black,
            PieceColor::Black => PieceColor::White,
        }
    }
}

} // verus!
