//! Sizes in cells.

use vstd::prelude::*;

verus! {

/// The size of a grid, in cells.
#[derive(Clone, Copy, Debug, PartialEq, Eq, Structural)]
pub struct Rectangle {
    pub width: usize,
    pub height: usize,
}

impl Rectangle {
    pub fn new(width: usize, height: usize) -> (rect: Rectangle)
        ensures
            rect == (Rectangle { width, height }),
    {
        Rectangle { width, height }
    }
}

} // verus!
