//! Rectangles of terminal cells.

use vstd::prelude::*;

verus! {

/// A rectangle of cells: the column and line of its top left cell, and its
/// size.
#[derive(Clone, Copy, Debug, PartialEq, Eq)]
pub struct Rect {
    pub x: u16,
    pub y: u16,
    pub width: u16,
    pub height: u16,
}

impl Rect {
    /// Whether the cell in column `x` of line `y` is one of the rectangle's.
    pub open spec fn has_cell(self, x: int, y: int) -> bool {
        &&& self.x <= x < self.x + self.width
        &&& self.y <= y < self.y + self.height
    }

    /// Whether every cell of `inner` is a cell of this rectangle.
    pub open spec fn encloses(self, inner: Rect) -> bool {
        forall|x: int, y: int| inner.has_cell(x, y) ==> #[trigger] self.has_cell(x, y)
    }

    /// Whether the columns and lines of all its cells are `u16` numbers.
    pub open spec fn on_grid(self) -> bool {
        &&& self.x + self.width <= u16::MAX + 1
        &&& self.y + self.height <= u16::MAX + 1
    }
}

} // verus!
