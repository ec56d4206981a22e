//! Densities of directions.

use vstd::prelude::*;
use crate::math::scalar::Scalar;
use crate::math::scalar::ONE_ORD;

verus! {

/// The bit pattern of one divided by four times pi: the share of a unit of
/// solid angle in the whole sphere.
pub const SPHERE_DENSITY_BITS: u64 = 0x3FB4_5F30_6DC9_C883;

/// The density that is the same in every direction.
#[derive(Clone, Copy, Debug, PartialEq, Eq, Structural)]
pub struct SpherePDF;

impl SpherePDF {
    /// The density of any direction: one divided by four times pi.
    pub fn value(&self) -> (r: Scalar)
        ensures
            r.bits == SPHERE_DENSITY_BITS,
    {
        Scalar::from_bits(SPHERE_DENSITY_BITS)
    }
}

/// A mixture of densities, each with its weight.
#[derive(Clone, Copy, Debug, PartialEq, Eq, Structural)]
pub struct MixedPDF;

impl MixedPDF {
    /// Whether the weights of a mixture make a whole, where `sum` is their
    /// sum: whether the sum is one.
    pub fn is_whole(sum: Scalar) -> (r: bool)
        ensures
            r <==> sum.ord() == ONE_ORD,
    {
        sum.ord() == ONE_ORD
    }

    /// The density of a mixture that a drawn number picks. `sums` holds,
    /// for each density in turn, the sum of the weights up to and with its
    /// own; the first density whose sum lies below `draw` is picked.
    pub fn pick(sums: &Vec<Scalar>, draw: Scalar) -> (r: Option<usize>)
        ensures
            match r {
                Some(i) => i < sums@.len() && sums@[i as int].ord() < draw.ord() && forall|j: int|
                    0 <= j < i ==> (#[trigger] sums@[j]).ord() >= draw.ord(),
                None => forall|j: int|
                    0 <= j < sums@.len() ==> (#[trigger] sums@[j]).ord() >= draw.ord(),
            },
    {
        let mut i: usize = 0;
        while i < sums.len()
            invariant
                0 <= i <= sums@.len(),
                forall|j: int| 0 <= j < i ==> (#[trigger] sums@[j]).ord() >= draw.ord(),
            decreases sums@.len() - i,
        {
            if sums[i].ord() < draw.ord() {
                return Some(i);
            }
            i = i + 1;
        }
        None
    }
}

} // verus!
