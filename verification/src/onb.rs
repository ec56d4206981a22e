//! Three unit vectors at right angles.

use vstd::prelude::*;
use crate::math::scalar::Scalar;
use crate::math::scalar::ONE_BITS;
use crate::math::vec::Normalized;
use crate::math::vec::Vec3;

verus! {

/// The order of nine tenths: a vector whose first component is nearer to
/// zero leans away from the X axis.
pub const LEANING_ORD: i64 = 0x3FEC_CCCC_CCCC_CCCD;

/// Three unit vectors at right angles, the third along a given direction.
#[derive(Clone, Copy, Debug)]
pub struct OrthonormalBasis {
    pub u: Vec3<Normalized>,
    pub v: Vec3<Normalized>,
    pub w: Vec3<Normalized>,
}

impl OrthonormalBasis {
    /// The three vectors as a basis. That they have length one and stand
    /// at right angles is for the caller to see to.
    pub fn new(u: Vec3<Normalized>, v: Vec3<Normalized>, w: Vec3<Normalized>) -> (r:
        OrthonormalBasis)
        ensures
            r.u == u,
            r.v == v,
            r.w == w,
    {
        OrthonormalBasis { u, v, w }
    }

    /// An axis that does not run along the unit vector `w`, from which the
    /// two other vectors of a basis around `w` are worked out: the Y axis
    /// where the first component of `w` is further from zero than nine
    /// tenths, and the X axis where it is not.
    pub fn reference(w: &Vec3<Normalized>) -> (a: Vec3)
        ensures
            w.x.spec_abs().ord() > LEANING_ORD ==> a.x.bits == 0 && a.y.bits == ONE_BITS && a.z.bits
                == 0,
            w.x.spec_abs().ord() <= LEANING_ORD ==> a.x.bits == ONE_BITS && a.y.bits == 0
                && a.z.bits == 0,
    {
        if w.x.abs().ord() > LEANING_ORD {
            Vec3::new(Scalar::zero(), Scalar::one(), Scalar::zero())
        } else {
            Vec3::new(Scalar::one(), Scalar::zero(), Scalar::zero())
        }
    }

    /// The first vector.
    pub fn u(&self) -> (r: Vec3<Normalized>)
        ensures
            r == self.u,
    {
        self.u
    }

    /// The second vector.
    pub fn v(&self) -> (r: Vec3<Normalized>)
        ensures
            r == self.v,
    {
        self.v
    }

    /// The third vector.
    pub fn w(&self) -> (r: Vec3<Normalized>)
        ensures
            r == self.w,
    {
        self.w
    }
}

} // verus!
