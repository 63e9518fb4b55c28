//! Points and rectangles for hit-testing.
//!
//! Rectangles carry a top-left corner and a size. Hit-testing is half-open:
//! a rectangle contains the points from its left/top edge up to, but not
//! including, its right/bottom edge. All comparisons are computed in 64-bit
//! arithmetic so that no combination of 32-bit inputs can overflow.

use vstd::prelude::*;

verus! {

/// A position in either puppet space or viewport space.
#[derive(Clone, Copy, PartialEq, Eq, Structural, Debug)]
pub struct Point {
    pub x: i32,
    pub y: i32,
}

impl Point {
    pub fn new(x: i32, y: i32) -> (r: Point)
        ensures
            r == (Point { x, y }),
    {
        Point { x, y }
    }
}

/// An axis-aligned rectangle: top-left corner `(x, y)`, width `w`, height `h`.
#[derive(Clone, Copy, PartialEq, Eq, Structural, Debug)]
pub struct Rect {
    pub x: i32,
    pub y: i32,
    pub w: u32,
    pub h: u32,
}

impl Rect {
    /// Whether `(px, py)` lies inside the rectangle; the right and bottom
    /// edges are excluded.
    pub open spec fn spec_contains(self, px: int, py: int) -> bool {
        &&& self.x <= px < self.x + self.w
        &&& self.y <= py < self.y + self.h
    }

    /// The center: the top-left corner offset by half the size (halves
    /// rounded down).
    pub open spec fn spec_center(self) -> (int, int) {
        (self.x + self.w / 2, self.y + self.h / 2)
    }

    pub fn new(x: i32, y: i32, w: u32, h: u32) -> (r: Rect)
        ensures
            r == (Rect { x, y, w, h }),
    {
        Rect { x, y, w, h }
    }

    pub fn contains_point(&self, p: Point) -> (r: bool)
        ensures
            r == self.spec_contains(p.x as int, p.y as int),
    {
        let px = p.x as i64;
        let py = p.y as i64;
        px >= self.x as i64 && px < self.x as i64 + self.w as i64 && py >= self.y as i64 && py
            < self.y as i64 + self.h as i64
    }

    /// The center of the rectangle, when it fits in 32 bits.
    pub fn center(&self) -> (r: Point)
        requires
            self.x + self.w / 2 <= i32::MAX,
            self.y + self.h / 2 <= i32::MAX,
        ensures
            (r.x as int, r.y as int) == self.spec_center(),
    {
        Point { x: (self.x as i64 + (self.w / 2) as i64) as i32, y: (self.y as i64 + (self.h / 2) as i64) as i32 }
    }

    /// The same rectangle moved so that its center is `p`, when the moved
    /// top-left corner fits in 32 bits.
    pub fn centered_on(&self, p: Point) -> (r: Rect)
        requires
            i32::MIN <= p.x - self.w / 2,
            i32::MIN <= p.y - self.h / 2,
        ensures
            r == (Rect {
                x: (p.x - self.w / 2) as i32,
                y: (p.y - self.h / 2) as i32,
                w: self.w,
                h: self.h,
            }),
    {
        Rect {
            x: (p.x as i64 - (self.w / 2) as i64) as i32,
            y: (p.y as i64 - (self.h / 2) as i64) as i32,
            w: self.w,
            h: self.h,
        }
    }

    /// The rectangle translated by `(dx, dy)`, when the moved corner fits in
    /// 32 bits.
    pub fn translated(&self, dx: i32, dy: i32) -> (r: Rect)
        requires
            i32::MIN <= self.x + dx <= i32::MAX,
            i32::MIN <= self.y + dy <= i32::MAX,
        ensures
            r == (Rect { x: (self.x + dx) as i32, y: (self.y + dy) as i32, w: self.w, h: self.h }),
    {
        Rect {
            x: (self.x as i64 + dx as i64) as i32,
            y: (self.y as i64 + dy as i64) as i32,
            w: self.w,
            h: self.h,
        }
    }
}

} // verus!
