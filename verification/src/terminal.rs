//! Screen coordinates and sizes.
use vstd::prelude::*;

verus! {

/// A cell on the screen: column and row, counted from the top left.
#[derive(Clone, Copy, Debug, PartialEq, Eq, Structural)]
pub struct Position {
    pub col: usize,
    pub row: usize,
}

impl Default for Position {
    /// The top left cell.
    fn default() -> (p: Position)
        ensures
            p.col == 0 && p.row == 0,
    {
        Position { col: 0, row: 0 }
    }
}

impl Position {
    /// Subtracts `rhs` coordinate by coordinate, stopping at zero.
    pub fn saturating_sub(self, rhs: Self) -> (p: Self)
        ensures
            p.col == (if self.col >= rhs.col {
                self.col - rhs.col
            } else {
                0
            }),
            p.row == (if self.row >= rhs.row {
                self.row - rhs.row
            } else {
                0
            }),
    {
        Position { col: self.col.saturating_sub(rhs.col), row: self.row.saturating_sub(rhs.row) }
    }
}

/// The size of an area of the screen, in columns and rows.
#[derive(Clone, Copy, Debug, PartialEq, Eq, Structural)]
pub struct Size {
    pub width: usize,
    pub height: usize,
}

impl Default for Size {
    /// The empty size.
    fn default() -> (s: Size)
        ensures
            s.width == 0 && s.height == 0,
    {
        Size { width: 0, height: 0 }
    }
}

} // verus!
