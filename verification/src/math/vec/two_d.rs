//! Vectors of the plane.

use vstd::prelude::*;
use crate::math::scalar::Scalar;
use crate::math::scalar::ONE_ORD;

verus! {

/// A vector of the plane.
#[derive(Clone, Copy, Debug, PartialEq, Eq, Structural)]
pub struct Vec2 {
    pub x: Scalar,
    pub y: Scalar,
}

impl Vec2 {
    /// The vector with the two components given.
    pub fn new(x: Scalar, y: Scalar) -> (r: Vec2)
        ensures
            r == (Vec2 { x, y }),
    {
        Vec2 { x, y }
    }

    /// The vector of length zero.
    pub fn empty() -> (r: Vec2)
        ensures
            r.x.bits == 0,
            r.y.bits == 0,
    {
        Vec2 { x: Scalar::zero(), y: Scalar::zero() }
    }

    /// The first component.
    pub fn x(&self) -> (r: Scalar)
        ensures
            r == self.x,
    {
        self.x
    }

    /// The second component.
    pub fn y(&self) -> (r: Scalar)
        ensures
            r == self.y,
    {
        self.y
    }

    /// The vector that points the other way.
    pub fn neg(self) -> (r: Vec2)
        ensures
            r == (Vec2 { x: self.x.spec_neg(), y: self.y.spec_neg() }),
    {
        Vec2 { x: self.x.neg(), y: self.y.neg() }
    }

    /// Whether a vector drawn from the square around the unit circle is
    /// kept, where `len_squared` is its squared length: whether it lies
    /// inside the circle.
    pub fn in_unit_circle(len_squared: Scalar) -> (r: bool)
        ensures
            r <==> len_squared.ord() < ONE_ORD,
    {
        len_squared.ord() < ONE_ORD
    }
}

} // verus!
