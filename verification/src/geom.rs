//! Axis-aligned rectangles in integer units, with the overlap test the
//! collision logic is built on.

use vstd::prelude::*;

verus! {

/// Mathematical model of a rectangle: top-left corner plus size.
pub struct RectModel {
    pub x: int,
    pub y: int,
    pub w: int,
    pub h: int,
}

impl RectModel {
    pub open spec fn left(self) -> int {
        self.x
    }

    pub open spec fn right(self) -> int {
        self.x + self.w
    }

    pub open spec fn top(self) -> int {
        self.y
    }

    pub open spec fn bottom(self) -> int {
        self.y + self.h
    }

    /// Axis-aligned bounding-box overlap, edges touching included.
    pub open spec fn overlaps(self, other: RectModel) -> bool {
        &&& self.left() <= other.right()
        &&& self.right() >= other.left()
        &&& self.top() <= other.bottom()
        &&& self.bottom() >= other.top()
    }
}

/// Axis-aligned rectangle: top-left corner plus size.
#[derive(Clone, Copy)]
pub struct Rect {
    pub x: i64,
    pub y: i64,
    pub w: i64,
    pub h: i64,
}

impl View for Rect {
    type V = RectModel;

    open spec fn view(&self) -> RectModel {
        RectModel { x: self.x as int, y: self.y as int, w: self.w as int, h: self.h as int }
    }
}

impl Rect {
    pub fn new(x: i64, y: i64, w: i64, h: i64) -> (r: Rect)
        ensures
            r@ == (RectModel { x: x as int, y: y as int, w: w as int, h: h as int }),
    {
        Rect { x, y, w, h }
    }

    /// Whether the two bounding boxes overlap, edges touching included.
    pub fn overlaps(&self, other: &Rect) -> (r: bool)
        requires
            -0x2000_0000_0000_0000 <= self.x <= 0x2000_0000_0000_0000,
            -0x2000_0000_0000_0000 <= self.y <= 0x2000_0000_0000_0000,
            0 <= self.w <= 0x2000_0000_0000_0000,
            0 <= self.h <= 0x2000_0000_0000_0000,
            -0x2000_0000_0000_0000 <= other.x <= 0x2000_0000_0000_0000,
            -0x2000_0000_0000_0000 <= other.y <= 0x2000_0000_0000_0000,
            0 <= other.w <= 0x2000_0000_0000_0000,
            0 <= other.h <= 0x2000_0000_0000_0000,
        ensures
            r == self@.overlaps(other@),
    {
        self.x <= other.x + other.w && self.x + self.w >= other.x && self.y <= other.y + other.h
            && self.y + self.h >= other.y
    }
}

} // verus!
