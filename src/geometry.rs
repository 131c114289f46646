//! Integer geometry shared by the view and the render worker.

use vstd::prelude::*;

verus! {

/// A width and a height in pixels.
#[derive(Clone, Copy, Debug, PartialEq, Eq, Structural)]
pub struct Size {
    pub width: i32,
    pub height: i32,
}

impl Size {
    /// Component-wise sum.
    pub fn add(&self, size: Size) -> (r: Size)
        requires
            i32::MIN <= self.width + size.width <= i32::MAX,
            i32::MIN <= self.height + size.height <= i32::MAX,
        ensures
            r.width == self.width + size.width,
            r.height == self.height + size.height,
    {
        Size { width: self.width + size.width, height: self.height + size.height }
    }

    /// Component-wise difference.
    pub fn subtract(&self, size: Size) -> (r: Size)
        requires
            i32::MIN <= self.width - size.width <= i32::MAX,
            i32::MIN <= self.height - size.height <= i32::MAX,
        ensures
            r.width == self.width - size.width,
            r.height == self.height - size.height,
    {
        Size { width: self.width - size.width, height: self.height - size.height }
    }
}

/// A position in view coordinates.
#[derive(Clone, Copy, Debug, PartialEq, Eq, Structural)]
pub struct Point {
    pub x: i32,
    pub y: i32,
}

impl Point {
    /// Component-wise sum.
    pub fn add(&self, pt: Point) -> (r: Point)
        requires
            i32::MIN <= self.x + pt.x <= i32::MAX,
            i32::MIN <= self.y + pt.y <= i32::MAX,
        ensures
            r.x == self.x + pt.x,
            r.y == self.y + pt.y,
    {
        Point { x: self.x + pt.x, y: self.y + pt.y }
    }

    /// Component-wise difference.
    pub fn subtract(&self, pt: Point) -> (r: Point)
        requires
            i32::MIN <= self.x - pt.x <= i32::MAX,
            i32::MIN <= self.y - pt.y <= i32::MAX,
        ensures
            r.x == self.x - pt.x,
            r.y == self.y - pt.y,
    {
        Point { x: self.x - pt.x, y: self.y - pt.y }
    }

    /// The same pair of numbers read as a size (used for deltas).
    pub fn to_size(&self) -> (r: Size)
        ensures
            r.width == self.x,
            r.height == self.y,
    {
        Size { width: self.x, height: self.y }
    }
}

/// An axis-aligned rectangle.
#[derive(Clone, Copy, Debug, PartialEq, Eq, Structural)]
pub struct Rectangle {
    pub origin: Point,
    pub size: Size,
}

impl Rectangle {
    /// True when neither dimension is positive.
    pub fn empty(&self) -> (r: bool)
        ensures
            r == (self.size.width <= 0 && self.size.height <= 0),
    {
        self.size.width <= 0 && self.size.height <= 0
    }
}

} // verus!
