//! A 2D point of two lanes.

use vstd::prelude::*;

verus! {

/// A point whose coordinates are binary32 encodings.
#[derive(Clone, Copy, Debug, Default, PartialEq, Eq, Structural)]
pub struct Point2DF {
    pub x: u32,
    pub y: u32,
}

impl Point2DF {
    pub fn new(x: u32, y: u32) -> (r: Point2DF)
        ensures
            r.x == x,
            r.y == y,
    {
        Point2DF { x, y }
    }

    pub fn x(&self) -> (r: u32)
        ensures
            r == self.x,
    {
        self.x
    }

    pub fn y(&self) -> (r: u32)
        ensures
            r == self.y,
    {
        self.y
    }

    /// The point with its two coordinates swapped.
    pub fn yx(&self) -> (r: Point2DF)
        ensures
            r.x == self.y,
            r.y == self.x,
    {
        Point2DF { x: self.y, y: self.x }
    }
}

} // verus!
