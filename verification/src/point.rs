//! Plain 2D points and vectors over `i64` scalars.

use vstd::prelude::*;

verus! {

/// A position in 2D space.
#[derive(Copy, Clone, Debug, PartialEq, Eq, Structural)]
pub struct Point2 {
    /// The position along the *x* axis.
    pub x: i64,
    /// The position along the *y* axis.
    pub y: i64,
}

/// A displacement or a pair of dimensions in 2D space.
#[derive(Copy, Clone, Debug, PartialEq, Eq, Structural)]
pub struct Vector2 {
    /// The component along the *x* axis.
    pub x: i64,
    /// The component along the *y* axis.
    pub y: i64,
}

impl Point2 {
    /// Build a point from its two coordinates.
    pub fn new(x: i64, y: i64) -> (r: Point2)
        ensures
            r.x == x,
            r.y == y,
    {
        Point2 { x, y }
    }
}

impl Vector2 {
    /// Build a vector from its two components.
    pub fn new(x: i64, y: i64) -> (r: Vector2)
        ensures
            r.x == x,
            r.y == y,
    {
        Vector2 { x, y }
    }
}

} // verus!
