//! Layout choices for labelled values.
use vstd::prelude::*;

verus! {

/// Where a label stands relative to the value it names.
#[derive(Clone, Copy, PartialEq, Eq, Structural, Debug)]
pub enum Position {
    Top,
    Bottom,
    Left,
    Right,
}

impl Default for Position {
    fn default() -> (r: Position)
        ensures
            r == Position::Top,
    {
        Position::Top
    }
}

} // verus!
