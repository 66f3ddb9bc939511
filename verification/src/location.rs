//! A place in the text: a line and a grapheme within it.
use crate::terminal::Position;
use vstd::prelude::*;
use vstd::std_specs::convert::FromSpecImpl;

verus! {

/// A place in the text: grapheme `grapheme_index` of line `line_index`.
#[derive(Clone, Copy, Debug, PartialEq, Eq, Structural)]
pub struct Location {
    pub grapheme_index: usize,
    pub line_index: usize,
}

impl Default for Location {
    /// The start of the text.
    fn default() -> (l: Location)
        ensures
            l.grapheme_index == 0 && l.line_index == 0,
    {
        Location { grapheme_index: 0, line_index: 0 }
    }
}

impl Location {
    /// Subtracts `rhs` coordinate by coordinate, stopping at zero.
    pub fn saturating_sub(&self, rhs: &Self) -> (l: Self)
        ensures
            l.grapheme_index == (if self.grapheme_index >= rhs.grapheme_index {
                self.grapheme_index - rhs.grapheme_index
            } else {
                0
            }),
            l.line_index == (if self.line_index >= rhs.line_index {
                self.line_index - rhs.line_index
            } else {
                0
            }),
    {
        Location {
            grapheme_index: self.grapheme_index.saturating_sub(rhs.grapheme_index),
            line_index: self.line_index.saturating_sub(rhs.line_index),
        }
    }

}

/// The screen position with the grapheme index as column and the line index
/// as row.
pub open spec fn position_of(location: Location) -> Position {
    Position { col: location.grapheme_index, row: location.line_index }
}

impl From<Location> for Position {
    fn from(location: Location) -> (p: Self) {
        Position { col: location.grapheme_index, row: location.line_index }
    }
}

impl FromSpecImpl<Location> for Position {
    open spec fn obeys_from_spec() -> bool {
        true
    }

    open spec fn from_spec(location: Location) -> Self {
        position_of(location)
    }
}

} // verus!
