//! Width/height pairs used for all bounds arithmetic.

use vstd::prelude::*;

verus! {

/// A width/height pair, bounded by the terminal size.
#[derive(Debug, Clone, Copy, PartialEq, Eq, Structural)]
pub struct Dimension {
    pub width: u16,
    pub height: u16,
}

impl Dimension {
    /// The number of cells a grid of this dimension holds.
    pub open spec fn area(self) -> int {
        self.width * self.height
    }
}

} // verus!
