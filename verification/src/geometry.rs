//! Terminal-cell geometry shared by every renderer.
use vstd::prelude::*;

verus! {

/// Extent of an area in terminal cells.
#[derive(Debug, Clone, Copy, PartialEq, Eq, Structural)]
pub struct Size {
    pub width: u16,
    pub height: u16,
}

impl Size {
    /// Build a size from its two sides.
    pub fn new(width: u16, height: u16) -> (size: Self)
        ensures
            size == (Size { width, height }),
    {
        Size { width, height }
    }

    /// Whether the area covers no cell at all.
    pub open spec fn is_blank(self) -> bool {
        self.width == 0 || self.height == 0
    }
}

/// Position and extent of an area in terminal cells.
#[derive(Debug, Clone, Copy, PartialEq, Eq, Structural)]
pub struct Rect {
    pub x: u16,
    pub y: u16,
    pub width: u16,
    pub height: u16,
}

/// Pixel extent of one terminal cell.
#[derive(Debug, Clone, Copy, PartialEq, Eq, Structural)]
pub struct FontSize {
    pub width: u16,
    pub height: u16,
}

impl FontSize {
    /// Build a font size from its two sides.
    pub fn new(width: u16, height: u16) -> (size: Self)
        ensures
            size == (FontSize { width, height }),
    {
        FontSize { width, height }
    }
}

} // verus!
