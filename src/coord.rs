use vstd::prelude::*;

verus! {

/// Marker used by `Coord::undefined` for both components.
pub const UNDEFINED_COORD: u8 = 255;

/// A (row, column) address into the 8x8 grid. Row 0 is Black's back rank,
/// row 7 is White's back rank; column 0 is the a-file.
#[derive(Clone, Copy, Debug, PartialEq, Eq, Structural)]
pub struct Coord {
    pub row: u8,
    pub col: u8,
}

impl Coord {
    pub open spec fn valid(self) -> bool {
        self.row < 8 && self.col < 8
    }

    pub fn new(row: u8, col: u8) -> (r: Coord)
        ensures
            r.row == row,
            r.col == col,
    {
        Coord { row, col }
    }

    /// The "nothing selected" sentinel: never valid, so unequal to every valid coordinate.
    pub fn undefined() -> (r: Coord)
        ensures
            r.row == UNDEFINED_COORD,
            r.col == UNDEFINED_COORD,
            !r.valid(),
    {
        Coord { row: UNDEFINED_COORD, col: UNDEFINED_COORD }
    }

    pub fn is_valid(&self) -> (r: bool)
        ensures
            r == self.valid(),
    {
        self.row < 8 && self.col < 8
    }
}

} // verus!
