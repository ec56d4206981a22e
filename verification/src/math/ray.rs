//! Rays.

use vstd::prelude::*;
use crate::math::point::Point3;
use crate::math::scalar::Scalar;
use crate::math::vec::Vec3;

verus! {

/// A ray of space: where it starts and which way it goes.
#[derive(Clone, Copy, Debug, PartialEq)]
pub struct Ray3 {
    pub origin: Point3,
    pub direction: Vec3,
}

/// A ray of space at a point in time.
#[derive(Clone, Copy, Debug, PartialEq)]
pub struct Ray4 {
    pub origin: Point3,
    pub direction: Vec3,
    pub time: Scalar,
}

impl Ray3 {
    /// The ray from `origin` along `direction`.
    pub fn new(origin: Point3, direction: Vec3) -> (r: Ray3)
        ensures
            r.origin == origin,
            r.direction == direction,
    {
        Ray3 { origin, direction }
    }

    /// Where the ray starts.
    pub fn origin(&self) -> (r: Point3)
        ensures
            r == self.origin,
    {
        self.origin
    }

    /// Which way the ray goes.
    pub fn direction(&self) -> (r: Vec3)
        ensures
            r == self.direction,
    {
        self.direction
    }
}

impl Ray4 {
    /// The ray from `origin` along `direction` at `time`.
    pub fn new(origin: Point3, direction: Vec3, time: Scalar) -> (r: Ray4)
        ensures
            r.origin == origin,
            r.direction == direction,
            r.time == time,
    {
        Ray4 { origin, direction, time }
    }

    /// Where the ray starts.
    pub fn origin(&self) -> (r: Point3)
        ensures
            r == self.origin,
    {
        self.origin
    }

    /// Which way the ray goes.
    pub fn direction(&self) -> (r: Vec3)
        ensures
            r == self.direction,
    {
        self.direction
    }

    /// The time of the ray.
    pub fn time(&self) -> (r: Scalar)
        ensures
            r == self.time,
    {
        self.time
    }

    /// The same ray without its time.
    pub fn ignore_time(&self) -> (r: Ray3)
        ensures
            r.origin == self.origin,
            r.direction == self.direction,
    {
        Ray3 { origin: self.origin, direction: self.direction }
    }
}

} // verus!
