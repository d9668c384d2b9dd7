//! Zero- or one-based grid coordinates.

use vstd::prelude::*;

verus! {

/// An (x, y) grid coordinate. Local and absolute coordinates are zero-based;
/// positions handed to the terminal are one-based.
#[derive(Debug, Clone, Copy, PartialEq, Eq, Structural)]
pub struct Position {
    pub x: u16,
    pub y: u16,
}

} // verus!
