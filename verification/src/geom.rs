//! Plain integer geometry: points, edge insets, and device-pixel rectangles.

use vstd::prelude::*;

verus! {

/// A point in device pixels.
#[derive(Clone, Copy, PartialEq, Eq, Structural, Debug)]
pub struct Point {
    pub x: i32,
    pub y: i32,
}

impl Point {
    pub fn new(x: i32, y: i32) -> (p: Point)
        ensures
            p == (Point { x, y }),
    {
        Point { x, y }
    }
}

/// Edge insets (margins) in device pixels.
#[derive(Clone, Copy, PartialEq, Eq, Structural, Debug)]
pub struct Edge {
    pub top: i32,
    pub right: i32,
    pub bottom: i32,
    pub left: i32,
}

impl Edge {
    /// A uniform inset on all four edges.
    pub fn uniform(width: i32) -> (e: Edge)
        ensures
            e == (Edge { top: width, right: width, bottom: width, left: width }),
    {
        Edge { top: width, right: width, bottom: width, left: width }
    }
}

/// An axis-aligned rectangle in device pixels.
#[derive(Clone, Copy, PartialEq, Eq, Structural, Debug)]
pub struct Rectangle {
    pub min: Point,
    pub max: Point,
}

impl Rectangle {
    pub fn new(min_x: i32, min_y: i32, max_x: i32, max_y: i32) -> (r: Rectangle)
        ensures
            r == (Rectangle { min: Point { x: min_x, y: min_y }, max: Point { x: max_x, y: max_y } }),
    {
        Rectangle { min: Point { x: min_x, y: min_y }, max: Point { x: max_x, y: max_y } }
    }

    pub fn width(&self) -> (w: i32)
        requires
            self.max.x - self.min.x <= i32::MAX,
            self.min.x <= self.max.x,
        ensures
            w == self.max.x - self.min.x,
    {
        self.max.x - self.min.x
    }

    pub fn height(&self) -> (h: i32)
        requires
            self.max.y - self.min.y <= i32::MAX,
            self.min.y <= self.max.y,
        ensures
            h == self.max.y - self.min.y,
    {
        self.max.y - self.min.y
    }

    /// The overlap of two rectangles, or nothing when they are disjoint.
    pub fn intersection(&self, other: &Rectangle) -> (r: Option<Rectangle>)
        ensures
            ({
                let x0 = if self.min.x >= other.min.x { self.min.x } else { other.min.x };
                let y0 = if self.min.y >= other.min.y { self.min.y } else { other.min.y };
                let x1 = if self.max.x <= other.max.x { self.max.x } else { other.max.x };
                let y1 = if self.max.y <= other.max.y { self.max.y } else { other.max.y };
                if x0 < x1 && y0 < y1 {
                    r == Some(Rectangle { min: Point { x: x0, y: y0 }, max: Point { x: x1, y: y1 } })
                } else {
                    r is None
                }
            }),
    {
        let x0 = if self.min.x >= other.min.x { self.min.x } else { other.min.x };
        let y0 = if self.min.y >= other.min.y { self.min.y } else { other.min.y };
        let x1 = if self.max.x <= other.max.x { self.max.x } else { other.max.x };
        let y1 = if self.max.y <= other.max.y { self.max.y } else { other.max.y };
        if x0 < x1 && y0 < y1 {
            Some(Rectangle { min: Point { x: x0, y: y0 }, max: Point { x: x1, y: y1 } })
        } else {
            None
        }
    }

    /// Shrink the rectangle by the given edge insets.
    pub fn shrink(&mut self, e: &Edge)
        requires
            old(self).min.x + e.left <= i32::MAX,
            old(self).min.x + e.left >= i32::MIN,
            old(self).min.y + e.top <= i32::MAX,
            old(self).min.y + e.top >= i32::MIN,
            old(self).max.x - e.right <= i32::MAX,
            old(self).max.x - e.right >= i32::MIN,
            old(self).max.y - e.bottom <= i32::MAX,
            old(self).max.y - e.bottom >= i32::MIN,
        ensures
            final(self).min.x == old(self).min.x + e.left,
            final(self).min.y == old(self).min.y + e.top,
            final(self).max.x == old(self).max.x - e.right,
            final(self).max.y == old(self).max.y - e.bottom,
    {
        self.min.x = self.min.x + e.left;
        self.min.y = self.min.y + e.top;
        self.max.x = self.max.x - e.right;
        self.max.y = self.max.y - e.bottom;
    }
}

} // verus!
