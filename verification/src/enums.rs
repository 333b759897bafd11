//! Small shared enumerations.
use vstd::prelude::*;

verus! {

/// A movement request relative to the camera's current view direction.
#[derive(Clone, Copy, Debug, PartialEq, Eq, Structural)]
pub enum Direction {
    Forward,
    Backward,
    Left,
    Right,
}

} // verus!
