//! Points and rectangles in image coordinates.

use vstd::prelude::*;

verus! {

/// A point in an image.
#[derive(Clone, Copy, Debug, PartialEq, Eq, Structural)]
pub struct Point {
    pub x: i32,
    pub y: i32,
}

/// A rectangle in an image: its top-left corner and its size.
#[derive(Clone, Copy, Debug, PartialEq, Eq, Structural)]
pub struct Rect {
    pub x: i32,
    pub y: i32,
    pub width: i32,
    pub height: i32,
}

/// The integer midpoint of `a` and `b`, rounding toward zero.
pub open spec fn midpoint(a: int, b: int) -> int {
    let sum = a + b;
    if sum >= 0 {
        sum / 2
    } else {
        -((-sum) / 2)
    }
}

/// The center of `r`: the midpoint of its top-left and bottom-right corners.
pub open spec fn rect_center(r: Rect) -> Point {
    Point {
        x: midpoint(r.x as int, r.x + r.width) as i32,
        y: midpoint(r.y as int, r.y + r.height) as i32,
    }
}

/// Whether `r`'s corners and their sums fit in an `i32`.
pub open spec fn rect_fits(r: Rect) -> bool {
    &&& i32::MIN <= r.x + r.width <= i32::MAX
    &&& i32::MIN <= r.y + r.height <= i32::MAX
    &&& i32::MIN <= r.x + r.x + r.width <= i32::MAX
    &&& i32::MIN <= r.y + r.y + r.height <= i32::MAX
}

impl Rect {
    /// The center of this rectangle.
    pub fn center(&self) -> (p: Point)
        requires
            rect_fits(*self),
        ensures
            p == rect_center(*self),
    {
        let br_x = self.x + self.width;
        let br_y = self.y + self.height;
        Point { x: (self.x + br_x) / 2, y: (self.y + br_y) / 2 }
    }
}

} // verus!
