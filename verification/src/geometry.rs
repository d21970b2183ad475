//! Pixel dimensions shared by the player surface, the render target and the frame.

use vstd::prelude::*;
use crate::ieee::Binary64;

verus! {

/// A width and a height in whole pixels.
#[derive(Clone, Copy, Debug, PartialEq, Eq, Structural)]
pub struct Size {
    pub width: u32,
    pub height: u32,
}

impl Size {
    /// A size of `width` by `height` pixels.
    pub fn new(width: u32, height: u32) -> (size: Size)
        ensures
            size == (Size { width, height }),
    {
        Size { width, height }
    }
}

/// A width and a height in the units of the display, which need not be whole.
#[derive(Clone, Copy, Debug, PartialEq, Eq, Structural)]
pub struct DisplaySize {
    pub width: Binary64,
    pub height: Binary64,
}

} // verus!
