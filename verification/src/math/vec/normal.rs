//! Whether a vector is known to have length one, told by its type.

use vstd::prelude::*;

verus! {

/// Closes [`NormalizationState`] to the two states of this file.
pub trait Sealed {

}

/// Nothing is known of the vector's length.
#[derive(Clone, Copy, Debug, PartialEq, Eq)]
pub struct Unknown {}

/// The vector has length one.
#[derive(Clone, Copy, Debug, PartialEq, Eq)]
pub struct Normalized {}

/// What a vector's type tells of its length.
pub trait NormalizationState: Sealed {

}

impl Sealed for Unknown {

}

impl Sealed for Normalized {

}

impl NormalizationState for Unknown {

}

impl NormalizationState for Normalized {

}

} // verus!
