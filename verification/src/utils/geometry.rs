//! Simple geometry primitives.

use vstd::prelude::*;
use vstd::std_specs::ops::{AddSpecImpl, MulSpecImpl};
use crate::utils::graphics::Drawable;

verus! {

/// A position on the pixel grid.
#[derive(Copy, Clone, Debug, PartialEq, Eq, Structural)]
pub struct Point {
    pub x: usize,
    pub y: usize,
}

/// A rectangle given by two opposite corners, `p1` at the top left and `p2`
/// at the bottom right.
#[derive(Copy, Clone, Debug, PartialEq, Eq, Structural)]
pub struct Rect {
    pub p1: Point,
    pub p2: Point,
}

impl Point {
    /// Creates a point.
    pub fn new(x: usize, y: usize) -> (point: Point)
        ensures
            point == (Point { x, y }),
    {
        Point { x, y }
    }
}

impl Default for Point {
    fn default() -> (point: Point)
        ensures
            point == (Point { x: 0, y: 0 }),
    {
        Point { x: 0, y: 0 }
    }
}

impl AddSpecImpl for Point {
    open spec fn obeys_add_spec() -> bool {
        true
    }

    open spec fn add_req(self, other: Point) -> bool {
        self.x + other.x <= usize::MAX && self.y + other.y <= usize::MAX
    }

    open spec fn add_spec(self, other: Point) -> Point {
        Point { x: (self.x + other.x) as usize, y: (self.y + other.y) as usize }
    }
}

impl core::ops::Add for Point {
    type Output = Point;

    /// The sum of the two points, coordinate by coordinate.
    fn add(self, other: Point) -> Point {
        Point::new(self.x + other.x, self.y + other.y)
    }
}

impl MulSpecImpl for Point {
    open spec fn obeys_mul_spec() -> bool {
        true
    }

    open spec fn mul_req(self, other: Point) -> bool {
        self.x * other.x <= usize::MAX && self.y * other.y <= usize::MAX
    }

    open spec fn mul_spec(self, other: Point) -> Point {
        Point { x: (self.x * other.x) as usize, y: (self.y * other.y) as usize }
    }
}

impl core::ops::Mul for Point {
    type Output = Point;

    /// The product of the two points, coordinate by coordinate.
    fn mul(self, other: Point) -> Point {
        Point::new(self.x * other.x, self.y * other.y)
    }
}

impl Default for Rect {
    fn default() -> (rect: Rect)
        ensures
            rect == (Rect { p1: Point { x: 0, y: 0 }, p2: Point { x: 0, y: 0 } }),
    {
        Rect { p1: Point { x: 0, y: 0 }, p2: Point { x: 0, y: 0 } }
    }
}

impl Rect {
    /// Whether the two rectangles overlap.  Rectangles that only touch along
    /// an edge do not.
    pub open spec fn overlaps(self, other: Rect) -> bool {
        &&& self.p2.y > other.p1.y
        &&& other.p2.y > self.p1.y
        &&& self.p2.x > other.p1.x
        &&& other.p2.x > self.p1.x
    }

    /// Creates a rectangle from two points.
    pub fn new(p1: &Point, p2: &Point) -> (rect: Rect)
        ensures
            rect == (Rect { p1: *p1, p2: *p2 }),
    {
        let p1 = *p1;
        let p2 = *p2;
        Rect { p1, p2 }
    }

    /// The rectangle that a drawable covers when its top-left corner is at
    /// `pos`.
    pub fn from_drawable<D>(pos: &Point, drawable: &D) -> (rect: Rect) where D: Drawable
        requires
            pos.x + drawable.spec_width() <= usize::MAX,
            pos.y + drawable.spec_height() <= usize::MAX,
        ensures
            rect.p1 == *pos,
            rect.p2 == (Point {
                x: (pos.x + drawable.spec_width()) as usize,
                y: (pos.y + drawable.spec_height()) as usize,
            }),
    {
        let p1 = *pos;
        let p2 = p1 + Point::new(drawable.width(), drawable.height());
        Rect { p1, p2 }
    }

    /// Tests whether two rectangles intersect.
    pub fn intersects(&self, other: &Rect) -> (b: bool)
        ensures
            b == self.overlaps(*other),
    {
        let (top1, right1, bottom1, left1) = self.get_bounds();
        let (top2, right2, bottom2, left2) = other.get_bounds();
        bottom1 > top2 && bottom2 > top1 && right1 > left2 && right2 > left1
    }

    /// The bounding box of the rectangle, as `(top, right, bottom, left)`.
    pub fn get_bounds(&self) -> (bounds: (usize, usize, usize, usize))
        ensures
            bounds == (self.p1.y, self.p2.x, self.p2.y, self.p1.x),
    {
        (self.p1.y, self.p2.x, self.p2.y, self.p1.x)
    }
}

} // verus!
