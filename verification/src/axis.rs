//! The three coordinate axes.

use vstd::prelude::*;

verus! {

/// One of the three axes of space.
#[derive(Clone, Copy, Debug, Hash, PartialEq, Eq, Structural)]
pub enum Axis {
    X,
    Y,
    Z,
}

/// Walks the axes in the order X, Y, Z. It holds the axis it gave last.
pub struct IterAxis(pub Option<Axis>);

impl Axis {
    /// The axis at position `value` in the order X, Y, Z, if there is one.
    pub open spec fn spec_try_from(value: u8) -> Result<Axis, ()> {
        match value {
            0 => Ok(Axis::X),
            1 => Ok(Axis::Y),
            2 => Ok(Axis::Z),
            _ => Err(()),
        }
    }

    /// The axis that follows `last` in the walk; `None` stands for the start
    /// as an argument and for the end as a result.
    pub open spec fn successor(last: Option<Axis>) -> Option<Axis> {
        match last {
            None => Some(Axis::X),
            Some(Axis::X) => Some(Axis::Y),
            Some(Axis::Y) => Some(Axis::Z),
            Some(Axis::Z) => None,
        }
    }

    /// A walk over the three axes that has not started yet.
    pub fn iter() -> (it: IterAxis)
        ensures
            it.0 is None,
            it.remaining() == seq![Axis::X, Axis::Y, Axis::Z],
    {
        IterAxis(None)
    }

    /// The axis at position `value` in the order X, Y, Z; an error for any
    /// value above 2.
    pub fn try_from(value: u8) -> (r: Result<Axis, ()>)
        ensures
            r == Self::spec_try_from(value),
            r is Ok <==> value <= 2,
    {
        match value {
            0 => Ok(Axis::X),
            1 => Ok(Axis::Y),
            2 => Ok(Axis::Z),
            _ => Err(()),
        }
    }
}

impl IterAxis {
    /// The axes that the walk has yet to give, in order.
    pub open spec fn remaining(self) -> Seq<Axis> {
        match self.0 {
            None => seq![Axis::X, Axis::Y, Axis::Z],
            Some(Axis::X) => seq![Axis::Y, Axis::Z],
            Some(Axis::Y) => seq![Axis::Z],
            Some(Axis::Z) => seq![],
        }
    }

    /// Gives the next axis, or `None` once Z has been given; a finished walk
    /// stays finished.
    pub fn next(&mut self) -> (r: Option<Axis>)
        ensures
            r == Axis::successor(old(self).0),
            r is Some ==> final(self).0 == r,
            r is None ==> *final(self) == *old(self),
            old(self).remaining().len() > 0 ==> r == Some(old(self).remaining()[0])
                && final(self).remaining() == old(self).remaining().skip(1),
            old(self).remaining().len() == 0 ==> r is None,
    {
        match self.0 {
            None => {
                self.0 = Some(Axis::X);
                Some(Axis::X)
            },
            Some(Axis::X) => {
                self.0 = Some(Axis::Y);
                Some(Axis::Y)
            },
            Some(Axis::Y) => {
                self.0 = Some(Axis::Z);
                Some(Axis::Z)
            },
            Some(Axis::Z) => None,
        }
    }
}

} // verus!
