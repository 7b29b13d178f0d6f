use vstd::prelude::*;
use crate::constants::DisplayMode;
use crate::coord::Coord;

verus! {

/// The selection state that the board view works with.
#[derive(Clone, Copy, Debug, PartialEq, Eq, Structural)]
pub struct UI {
    /// The cell under the cursor
    pub cursor_coordinates: Coord,
    /// The cell of the selected piece, or the undefined coordinate
    pub selected_coordinates: Coord,
    /// Where the cursor was when the piece got selected
    pub old_cursor_position: Coord,
    /// The index of the cursor among the legal targets of the selected piece
    pub selected_piece_cursor: usize,
    /// The entry chosen in the promotion popup: queen, rook, bishop, knight
    pub promotion_cursor: i8,
    /// How pieces are drawn
    pub display_mode: DisplayMode,
}

impl UI {
    pub open spec fn initial(&self) -> bool {
        &&& self.cursor_coordinates == Coord { row: 4, col: 4 }
        &&& self.selected_coordinates == Coord { row: 255, col: 255 }
        &&& self.old_cursor_position == Coord { row: 255, col: 255 }
        &&& self.promotion_cursor == 0
        &&& self.selected_piece_cursor == 0
        &&& self.display_mode == DisplayMode::DEFAULT
    }

    /// Whether a piece is selected.
    pub fn is_cell_selected(&self) -> (r: bool)
        ensures
            r == self.selected_coordinates.valid(),
    {
        self.selected_coordinates.is_valid()
    }

    /// Drops the selection.
    pub fn unselect_cell(&mut self)
        ensures
            *final(self) == (UI { selected_coordinates: Coord { row: 255, col: 255 }, ..*old(self) }),
    {
        self.selected_coordinates = Coord::undefined();
    }

    /// Puts the cursor on one of `authorized_positions`: the first one when the piece
    /// was just selected, else the next (`direction` 1) or the previous one (any other
    /// `direction`) after the current index taken modulo their number, wrapping around. Without positions the cursor becomes undefined.
    pub fn move_selected_piece_cursor(&mut self, first_time_moving: bool, direction: i8, authorized_positions: &Vec<Coord>)
        ensures
            authorized_positions@.len() == 0 ==> *final(self) == (UI {
                cursor_coordinates: Coord { row: 255, col: 255 },
                ..*old(self)
            }),
            authorized_positions@.len() > 0 ==> {
                let n = authorized_positions@.len() as int;
                let j = old(self).selected_piece_cursor as int % n;
                let next = if first_time_moving {
                    0
                } else if direction == 1 {
                    if j + 1 == n { 0 } else { j + 1 }
                } else {
                    if j == 0 { n - 1 } else { j - 1 }
                };
                &&& final(self).selected_piece_cursor == next
                &&& *final(self) == (UI {
                    cursor_coordinates: authorized_positions@[next],
                    selected_piece_cursor: next as usize,
                    ..*old(self)
                })
            },
    {
        let n = authorized_positions.len();
        if n == 0 {
            self.cursor_coordinates = Coord::undefined();
            return;
        }
        let j = self.selected_piece_cursor % n;
        let next: usize = if first_time_moving {
            0
        } else if direction == 1 {
            if j + 1 == n { 0 } else { j + 1 }
        } else {
            if j == 0 { n - 1 } else { j - 1 }
        };
        self.selected_piece_cursor = next;
        self.cursor_coordinates = authorized_positions[next];
    }

    /// Moves the cursor one row up, if it is not on the top row; with a piece
    /// selected, to the previous legal target instead.
    pub fn cursor_up(&mut self, authorized_positions: &Vec<Coord>)
        ensures
            !old(self).selected_coordinates.valid() ==> *final(self) == if old(self).cursor_coordinates.row > 0 {
                UI {
                    cursor_coordinates: Coord { row: (old(self).cursor_coordinates.row - 1) as u8, ..old(self).cursor_coordinates },
                    ..*old(self)
                }
            } else {
                *old(self)
            },
            old(self).selected_coordinates.valid() && authorized_positions@.len() > 0
                ==> authorized_positions@.contains(final(self).cursor_coordinates),
    {
        if self.is_cell_selected() {
            self.move_selected_piece_cursor(false, -1, authorized_positions);
        } else if self.cursor_coordinates.row > 0 {
            self.cursor_coordinates.row = self.cursor_coordinates.row - 1;
        }
    }

    /// Moves the cursor one row down, up to the bottom row; with a piece selected, to
    /// the next legal target instead.
    pub fn cursor_down(&mut self, authorized_positions: &Vec<Coord>)
        ensures
            !old(self).selected_coordinates.valid() ==> *final(self) == if old(self).cursor_coordinates.row < 7 {
                UI {
                    cursor_coordinates: Coord { row: (old(self).cursor_coordinates.row + 1) as u8, ..old(self).cursor_coordinates },
                    ..*old(self)
                }
            } else {
                *old(self)
            },
            old(self).selected_coordinates.valid() && authorized_positions@.len() > 0
                ==> authorized_positions@.contains(final(self).cursor_coordinates),
    {
        if self.is_cell_selected() {
            self.move_selected_piece_cursor(false, 1, authorized_positions);
        } else if self.cursor_coordinates.row < 7 {
            self.cursor_coordinates.row = self.cursor_coordinates.row + 1;
        }
    }

    /// Moves the cursor one column left, if it is not on the first column; with a
    /// piece selected, to the previous legal target instead.
    pub fn cursor_left(&mut self, authorized_positions: &Vec<Coord>)
        ensures
            !old(self).selected_coordinates.valid() ==> *final(self) == if old(self).cursor_coordinates.col > 0 {
                UI {
                    cursor_coordinates: Coord { col: (old(self).cursor_coordinates.col - 1) as u8, ..old(self).cursor_coordinates },
                    ..*old(self)
                }
            } else {
                *old(self)
            },
            old(self).selected_coordinates.valid() && authorized_positions@.len() > 0
                ==> authorized_positions@.contains(final(self).cursor_coordinates),
    {
        if self.is_cell_selected() {
            self.move_selected_piece_cursor(false, -1, authorized_positions);
        } else if self.cursor_coordinates.col > 0 {
            self.cursor_coordinates.col = self.cursor_coordinates.col - 1;
        }
    }

    /// Moves the cursor one column right, up to the last column; with a piece
    /// selected, to the next legal target instead.
    pub fn cursor_right(&mut self, authorized_positions: &Vec<Coord>)
        ensures
            !old(self).selected_coordinates.valid() ==> *final(self) == if old(self).cursor_coordinates.col < 7 {
                UI {
                    cursor_coordinates: Coord { col: (old(self).cursor_coordinates.col + 1) as u8, ..old(self).cursor_coordinates },
                    ..*old(self)
                }
            } else {
                *old(self)
            },
            old(self).selected_coordinates.valid() && authorized_positions@.len() > 0
                ==> authorized_positions@.contains(final(self).cursor_coordinates),
    {
        if self.is_cell_selected() {
            self.move_selected_piece_cursor(false, 1, authorized_positions);
        } else if self.cursor_coordinates.col < 7 {
            self.cursor_coordinates.col = self.cursor_coordinates.col + 1;
        }
    }

    /// Moves the promotion popup cursor left among its four entries, wrapping around.
    pub fn cursor_left_promotion(&mut self)
        requires
            0 <= old(self).promotion_cursor < 4,
        ensures
            *final(self) == (UI {
                promotion_cursor: if old(self).promotion_cursor == 0 { 3 } else { (old(self).promotion_cursor - 1) as i8 },
                ..*old(self)
            }),
    {
        self.promotion_cursor = if self.promotion_cursor == 0 { 3 } else { self.promotion_cursor - 1 };
    }

    /// Moves the promotion popup cursor right among its four entries, wrapping around.
    pub fn cursor_right_promotion(&mut self)
        requires
            0 <= old(self).promotion_cursor < 4,
        ensures
            *final(self) == (UI {
                promotion_cursor: if old(self).promotion_cursor == 3 { 0 } else { (old(self).promotion_cursor + 1) as i8 },
                ..*old(self)
            }),
    {
        self.promotion_cursor = if self.promotion_cursor == 3 { 0 } else { self.promotion_cursor + 1 };
    }
}

impl Default for UI {
    fn default() -> (r: UI)
        ensures
            r.initial(),
    {
        UI {
            cursor_coordinates: Coord::new(4, 4),
            selected_coordinates: Coord::undefined(),
            old_cursor_position: Coord::undefined(),
            selected_piece_cursor: 0,
            promotion_cursor: 0,
            display_mode: DisplayMode::DEFAULT,
        }
    }
}

} // verus!
