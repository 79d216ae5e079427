//! The window-size value handed in by the embedding program.

use vstd::prelude::*;

verus! {

/// A drawable size in whole pixels.
#[derive(Clone, Copy, PartialEq, Eq, Structural, Debug)]
pub struct Size {
    pub width: i32,
    pub height: i32,
}

impl Size {
    pub fn new(size: (u32, u32)) -> (r: Size)
        ensures
            r.width == size.0 as i32,
            r.height == size.1 as i32,
    {
        Size { width: size.0 as i32, height: size.1 as i32 }
    }
}

} // verus!
