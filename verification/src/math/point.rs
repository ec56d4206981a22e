//! Points of space and of the plane.

use vstd::prelude::*;
use crate::axis::Axis;
use crate::math::scalar::Scalar;

verus! {

/// A point of space.
#[derive(Clone, Copy, Debug, PartialEq, Eq, Structural)]
pub struct Point3 {
    pub x: Scalar,
    pub y: Scalar,
    pub z: Scalar,
}

/// A point of the plane.
#[derive(Clone, Copy, Debug, PartialEq, Eq, Structural)]
pub struct Point2 {
    pub x: Scalar,
    pub y: Scalar,
}

impl Point3 {
    /// The coordinate along `axis`.
    pub open spec fn spec_index(self, axis: Axis) -> Scalar {
        match axis {
            Axis::X => self.x,
            Axis::Y => self.y,
            Axis::Z => self.z,
        }
    }

    /// The point with the three coordinates given.
    pub fn new(x: Scalar, y: Scalar, z: Scalar) -> (r: Point3)
        ensures
            r == (Point3 { x, y, z }),
    {
        Point3 { x, y, z }
    }

    /// The point whose coordinates are all zero.
    pub fn origin() -> (r: Point3)
        ensures
            r.x.bits == 0,
            r.y.bits == 0,
            r.z.bits == 0,
    {
        Point3 { x: Scalar::zero(), y: Scalar::zero(), z: Scalar::zero() }
    }

    /// The first coordinate.
    pub fn x(&self) -> (r: Scalar)
        ensures
            r == self.x,
    {
        self.x
    }

    /// The second coordinate.
    pub fn y(&self) -> (r: Scalar)
        ensures
            r == self.y,
    {
        self.y
    }

    /// The third coordinate.
    pub fn z(&self) -> (r: Scalar)
        ensures
            r == self.z,
    {
        self.z
    }

    /// The coordinate along `axis`.
    pub fn index(&self, axis: Axis) -> (r: Scalar)
        ensures
            r == self.spec_index(axis),
    {
        match axis {
            Axis::X => self.x,
            Axis::Y => self.y,
            Axis::Z => self.z,
        }
    }
}

impl Point2 {
    /// The point whose coordinates are both zero.
    pub fn origin() -> (r: Point2)
        ensures
            r.x.bits == 0,
            r.y.bits == 0,
    {
        Point2 { x: Scalar::zero(), y: Scalar::zero() }
    }

    /// The point with the two coordinates given.
    pub fn new(x: Scalar, y: Scalar) -> (r: Point2)
        ensures
            r == (Point2 { x, y }),
    {
        Point2 { x, y }
    }

    /// The first coordinate.
    pub fn x(&self) -> (r: Scalar)
        ensures
            r == self.x,
    {
        self.x
    }

    /// The second coordinate.
    pub fn y(&self) -> (r: Scalar)
        ensures
            r == self.y,
    {
        self.y
    }
}

} // verus!
