//! Two-dimensional integer vectors and their mathematical model.

use vstd::prelude::*;

verus! {

/// A point of the plane with unbounded integer coordinates: the model of [`Vec2`]
/// and of every coordinate pair that a contract speaks of.
pub struct Point {
    pub x: int,
    pub y: int,
}

impl Point {
    /// Both coordinates are 64-bit values, so that a [`Vec2`] can hold the point.
    pub open spec fn fits(self) -> bool {
        i64::MIN <= self.x <= i64::MAX && i64::MIN <= self.y <= i64::MAX
    }
}

/// The scalar product of two points taken as vectors.
pub open spec fn dot(a: Point, b: Point) -> int {
    a.x * b.x + a.y * b.y
}

/// A point or displacement in the plane, with 64-bit integer coordinates.
#[derive(Clone, Copy, Debug, PartialEq, Eq, Structural)]
pub struct Vec2 {
    pub x: i64,
    pub y: i64,
}

impl View for Vec2 {
    type V = Point;

    open spec fn view(&self) -> Point {
        Point { x: self.x as int, y: self.y as int }
    }
}

/// A point or displacement in the plane, with 128-bit integer coordinates.
#[derive(Clone, Copy, Debug, PartialEq, Eq, Structural)]
pub struct Wide {
    pub x: i128,
    pub y: i128,
}

impl View for Wide {
    type V = Point;

    open spec fn view(&self) -> Point {
        Point { x: self.x as int, y: self.y as int }
    }
}

} // verus!
