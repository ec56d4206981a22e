//! Vectors of space.

use vstd::prelude::*;
use core::marker::PhantomData;
use crate::axis::Axis;
use crate::math::point::Point3;
use crate::math::scalar::Scalar;

pub mod normal;
pub mod two_d;

pub use normal::{NormalizationState, Normalized, Unknown};
pub use two_d::Vec2;

verus! {

/// The order of the bound under which a component counts as zero, a hundred
/// millionth.
pub const NEAR_ZERO_ORD: i64 = 0x3E45_798E_E230_8C3A;

/// The order of the least squared length that a drawn vector may have: ten
/// to the power of minus 160.
pub const SHELL_ORD: i64 = 0x1EB6_7E9C_127B_6E74;

/// A vector of space. The second parameter tells whether it is known to have
/// length one.
#[derive(Debug)]
pub struct Vec3<N: NormalizationState = Unknown> {
    pub x: Scalar,
    pub y: Scalar,
    pub z: Scalar,
    pub normalized: PhantomData<N>,
}

impl<N: NormalizationState> Clone for Vec3<N> {
    fn clone(&self) -> (r: Self)
        ensures
            r == *self,
    {
        *self
    }
}

impl<N: NormalizationState> Copy for Vec3<N> {

}

impl<N: NormalizationState> PartialEq for Vec3<N> {
    fn eq(&self, other: &Self) -> (r: bool) {
        self.x.bits == other.x.bits && self.y.bits == other.y.bits && self.z.bits == other.z.bits
    }
}

impl<N: NormalizationState> vstd::std_specs::cmp::PartialEqSpecImpl for Vec3<N> {
    open spec fn obeys_eq_spec() -> bool {
        true
    }

    open spec fn eq_spec(&self, other: &Self) -> bool {
        self.x.bits == other.x.bits && self.y.bits == other.y.bits && self.z.bits == other.z.bits
    }
}

impl<N: NormalizationState> Vec3<N> {
    /// The component along `axis`.
    pub open spec fn spec_index(self, axis: Axis) -> Scalar {
        match axis {
            Axis::X => self.x,
            Axis::Y => self.y,
            Axis::Z => self.z,
        }
    }

    /// The vector that points the other way.
    pub open spec fn spec_neg(self) -> Vec3<N> {
        Vec3 {
            x: self.x.spec_neg(),
            y: self.y.spec_neg(),
            z: self.z.spec_neg(),
            normalized: PhantomData,
        }
    }

    /// Whether each component is nearer to zero than a hundred millionth.
    pub open spec fn spec_near_zero(self) -> bool {
        &&& self.x.spec_abs().ord() < NEAR_ZERO_ORD
        &&& self.y.spec_abs().ord() < NEAR_ZERO_ORD
        &&& self.z.spec_abs().ord() < NEAR_ZERO_ORD
    }

    /// The first component.
    pub fn x(&self) -> (r: Scalar)
        ensures
            r == self.x,
    {
        self.x
    }

    /// The second component.
    pub fn y(&self) -> (r: Scalar)
        ensures
            r == self.y,
    {
        self.y
    }

    /// The third component.
    pub fn z(&self) -> (r: Scalar)
        ensures
            r == self.z,
    {
        self.z
    }

    /// The component along `axis`.
    pub fn index(&self, axis: Axis) -> (r: Scalar)
        ensures
            r == self.spec_index(axis),
    {
        match axis {
            Axis::X => self.x,
            Axis::Y => self.y,
            Axis::Z => self.z,
        }
    }

    /// The vector that points the other way. What is known of the length
    /// stays known.
    pub fn neg(self) -> (r: Vec3<N>)
        ensures
            r == self.spec_neg(),
    {
        Vec3 { x: self.x.neg(), y: self.y.neg(), z: self.z.neg(), normalized: PhantomData }
    }

    /// The vector on the side of a surface that `facing` tells: the vector
    /// itself where `facing`, its product with the normal of the surface,
    /// is above zero, and the vector turned round where it is not.
    pub fn on_hemisphere(self, facing: Scalar) -> (r: Vec3<N>)
        ensures
            r == if facing.ord() > 0 {
                self
            } else {
                self.spec_neg()
            },
    {
        if facing.ord() > 0 {
            self
        } else {
            self.neg()
        }
    }

    /// Whether each component is nearer to zero than a hundred millionth.
    pub fn near_zero(&self) -> (r: bool)
        ensures
            r == self.spec_near_zero(),
    {
        self.x.abs().ord() < NEAR_ZERO_ORD && self.y.abs().ord() < NEAR_ZERO_ORD
            && self.z.abs().ord() < NEAR_ZERO_ORD
    }
}

impl From<Point3> for Vec3<Unknown> {
    fn from(value: Point3) -> (r: Vec3<Unknown>) {
        Vec3 { x: value.x, y: value.y, z: value.z, normalized: PhantomData }
    }
}

impl vstd::std_specs::convert::FromSpecImpl<Point3> for Vec3<Unknown> {
    open spec fn obeys_from_spec() -> bool {
        true
    }

    open spec fn from_spec(value: Point3) -> Vec3<Unknown> {
        Vec3 { x: value.x, y: value.y, z: value.z, normalized: PhantomData }
    }
}

impl From<Vec3<Unknown>> for Point3 {
    fn from(value: Vec3<Unknown>) -> (r: Point3) {
        Point3 { x: value.x, y: value.y, z: value.z }
    }
}

impl vstd::std_specs::convert::FromSpecImpl<Vec3<Unknown>> for Point3 {
    open spec fn obeys_from_spec() -> bool {
        true
    }

    open spec fn from_spec(value: Vec3<Unknown>) -> Point3 {
        Point3 { x: value.x, y: value.y, z: value.z }
    }
}

impl Vec3<Unknown> {
    /// Whether a vector drawn from the cube around the unit ball is kept,
    /// where `len_squared` is its squared length: whether it lies inside
    /// the ball and not too near its middle to be given length one.
    pub fn in_unit_sphere(len_squared: Scalar) -> (r: bool)
        ensures
            r <==> SHELL_ORD < len_squared.ord() < crate::math::scalar::ONE_ORD,
    {
        let len_sq = len_squared.ord();
        SHELL_ORD < len_sq && len_sq < crate::math::scalar::ONE_ORD
    }

    /// The vector with the three components given.
    pub fn new(x: Scalar, y: Scalar, z: Scalar) -> (r: Vec3<Unknown>)
        ensures
            r.x == x,
            r.y == y,
            r.z == z,
    {
        Vec3 { x, y, z, normalized: PhantomData }
    }

    /// The vector of length zero.
    pub fn empty() -> (r: Vec3<Unknown>)
        ensures
            r.x.bits == 0,
            r.y.bits == 0,
            r.z.bits == 0,
    {
        Vec3 { x: Scalar::zero(), y: Scalar::zero(), z: Scalar::zero(), normalized: PhantomData }
    }

    /// The same vector, marked as having length one. The length is not
    /// looked at: the caller answers for it.
    pub fn assert_is_normalized(self) -> (r: Vec3<Normalized>)
        ensures
            r.x == self.x,
            r.y == self.y,
            r.z == self.z,
    {
        Vec3 { x: self.x, y: self.y, z: self.z, normalized: PhantomData }
    }
}

impl Vec3<Normalized> {
    /// The same vector with what is known of its length forgotten.
    pub fn into_unknown(self) -> (r: Vec3<Unknown>)
        ensures
            r.x == self.x,
            r.y == self.y,
            r.z == self.z,
    {
        Vec3 { x: self.x, y: self.y, z: self.z, normalized: PhantomData }
    }
}

} // verus!
