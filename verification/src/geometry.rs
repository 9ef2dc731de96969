//! Geometry exchanged between a backend and the drawing payload, in whole
//! pixels.

use vstd::prelude::*;

verus! {

/// A position in window-local coordinates.
#[derive(Debug, Clone, Copy, PartialEq, Eq, Structural)]
pub struct Point {
    pub x: i32,
    pub y: i32,
}

/// An extent in pixels.
#[derive(Debug, Clone, Copy, PartialEq, Eq, Structural)]
pub struct Size {
    pub width: i32,
    pub height: i32,
}

/// An origin together with an extent.
#[derive(Debug, Clone, Copy, PartialEq, Eq, Structural)]
pub struct Rect {
    pub origin: Point,
    pub size: Size,
}

impl Size {
    /// Both components are strictly positive: a surface of this size can be
    /// rendered into.
    pub open spec fn is_renderable(self) -> bool {
        self.width > 0 && self.height > 0
    }

    /// Tells whether a surface of this size can be rendered into.
    pub fn renderable(&self) -> (r: bool)
        ensures
            r == self.is_renderable(),
    {
        self.width > 0 && self.height > 0
    }
}

} // verus!
