//! Boxes whose faces lie along the axes, and the tree that is built of them.

use vstd::prelude::*;
use crate::axis::Axis;
use crate::math::interval::lemma_surrounding;
use crate::math::interval::widen_refines;
use crate::math::interval::Interval;
use crate::math::interval::Widening;
use crate::math::point::Point3;
use crate::math::scalar::Scalar;

verus! {

/// The extents of a box along the three axes.
#[derive(Clone, Copy, Debug, PartialEq, Eq, Structural)]
pub struct Extents {
    pub x: Scalar,
    pub y: Scalar,
    pub z: Scalar,
}

/// The two distances at which a ray goes through the two faces of a box on
/// one axis, in either order.
#[derive(Clone, Copy, Debug, PartialEq, Eq, Structural)]
pub struct Crossing {
    pub first: Scalar,
    pub second: Scalar,
}

/// The distances at which a ray goes through the faces of a box, axis by
/// axis.
#[derive(Clone, Copy, Debug, PartialEq, Eq, Structural)]
pub struct Crossings {
    pub x: Crossing,
    pub y: Crossing,
    pub z: Crossing,
}

/// A box whose faces lie along the axes: one range for each axis.
#[derive(Clone, Copy, Debug, PartialEq, Eq, Structural)]
pub struct BoundingBox3 {
    pub x: Interval,
    pub y: Interval,
    pub z: Interval,
}

impl BoundingBox3 {
    /// Whether the box `inner` lies inside this one: on each axis this box
    /// starts no higher and ends no lower.
    pub open spec fn encloses(self, inner: BoundingBox3) -> bool {
        &&& self.x.encloses(inner.x)
        &&& self.y.encloses(inner.y)
        &&& self.z.encloses(inner.z)
    }

    /// Whether the two boxes have ends of the same order.
    pub open spec fn same(self, other: BoundingBox3) -> bool {
        &&& self.x.same(other.x)
        &&& self.y.same(other.y)
        &&& self.z.same(other.z)
    }

    /// Whether widening leaves the box alone: whether each of its ranges
    /// is a ten thousandth wide at least by `model`, or is widened to
    /// itself.
    pub open spec fn settled(self, model: spec_fn(Interval) -> Widening) -> bool {
        Self::spec_new(self.x, self.y, self.z, model) == self
    }

    /// Whether `padded` is the box `self` with each range as `widen` can
    /// make a box hold it.
    pub open spec fn padded_by<F: Fn(Interval) -> Widening>(
        self,
        widen: &F,
        padded: BoundingBox3,
    ) -> bool {
        &&& self.x.padded_by(widen, padded.x)
        &&& self.y.padded_by(widen, padded.y)
        &&& self.z.padded_by(widen, padded.z)
    }

    /// Whether the six ends of the box are numbers.
    pub open spec fn is_number(self) -> bool {
        &&& self.x.is_number()
        &&& self.y.is_number()
        &&& self.z.is_number()
    }

    /// The range of the box along `axis`.
    pub open spec fn spec_index(self, axis: Axis) -> Interval {
        match axis {
            Axis::X => self.x,
            Axis::Y => self.y,
            Axis::Z => self.z,
        }
    }

    /// Whether each of the three ranges is in order.
    pub open spec fn is_positive(self) -> bool {
        self.x.is_positive() && self.y.is_positive() && self.z.is_positive()
    }

    /// The box that holds nothing.
    pub open spec fn spec_empty() -> BoundingBox3 {
        BoundingBox3 {
            x: Interval::spec_empty(),
            y: Interval::spec_empty(),
            z: Interval::spec_empty(),
        }
    }

    /// The box that holds all of space.
    pub open spec fn spec_universe() -> BoundingBox3 {
        BoundingBox3 {
            x: Interval::spec_universe(),
            y: Interval::spec_universe(),
            z: Interval::spec_universe(),
        }
    }

    /// The box of the three ranges, each made no narrower than a ten
    /// thousandth: a range that is narrower by `model` gives way to the
    /// range that `model` widens it to.
    pub open spec fn spec_new(
        x: Interval,
        y: Interval,
        z: Interval,
        model: spec_fn(Interval) -> Widening,
    ) -> BoundingBox3 {
        BoundingBox3 { x: x.spec_padded(model), y: y.spec_padded(model), z: z.spec_padded(model) }
    }

    /// The box between the two points, as it is before any range is
    /// widened.
    pub open spec fn spec_between(a: Point3, b: Point3) -> BoundingBox3 {
        BoundingBox3 {
            x: Interval::spec_positive(a.x, b.x),
            y: Interval::spec_positive(a.y, b.y),
            z: Interval::spec_positive(a.z, b.z),
        }
    }

    /// The box that surrounds both boxes, axis by axis, as it is before any
    /// range is widened.
    pub open spec fn spec_hull(a: BoundingBox3, b: BoundingBox3) -> BoundingBox3 {
        BoundingBox3 {
            x: Interval::spec_surrounding(a.x, b.x),
            y: Interval::spec_surrounding(a.y, b.y),
            z: Interval::spec_surrounding(a.z, b.z),
        }
    }

    /// The box with the two points as opposite corners, no range narrower
    /// than a ten thousandth.
    pub open spec fn spec_bounded_by(
        a: Point3,
        b: Point3,
        model: spec_fn(Interval) -> Widening,
    ) -> BoundingBox3 {
        let given = Self::spec_between(a, b);
        Self::spec_new(given.x, given.y, given.z, model)
    }

    /// The box that surrounds both boxes, no range narrower than a ten
    /// thousandth.
    pub open spec fn spec_extending(
        a: BoundingBox3,
        b: BoundingBox3,
        model: spec_fn(Interval) -> Widening,
    ) -> BoundingBox3 {
        let given = Self::spec_hull(a, b);
        Self::spec_new(given.x, given.y, given.z, model)
    }

    /// The box that surrounds those of the two boxes that are there, no
    /// range narrower than a ten thousandth, and the empty box where neither
    /// is.
    pub open spec fn spec_extending_opt(
        a: Option<BoundingBox3>,
        b: Option<BoundingBox3>,
        model: spec_fn(Interval) -> Widening,
    ) -> BoundingBox3 {
        match (a, b) {
            (None, None) => Self::spec_empty(),
            (None, Some(b)) => Self::spec_new(b.x, b.y, b.z, model),
            (Some(a), None) => Self::spec_new(a.x, a.y, a.z, model),
            (Some(a), Some(b)) => Self::spec_extending(a, b, model),
        }
    }

    /// The axis with the greatest of the three extents, where that extent is
    /// above zero: Z if its extent is above the two others, else Y if its
    /// extent is above that of X, else X.
    pub open spec fn spec_longest_axis(extents: Extents) -> Axis {
        let floor = (Scalar { bits: 0 }).spec_max(extents.x);
        if extents.z.ord() > floor.spec_max(extents.y).ord() {
            Axis::Z
        } else if extents.y.ord() > floor.ord() {
            Axis::Y
        } else {
            Axis::X
        }
    }

    /// What is left of `range` on one axis: what `range` shares with the
    /// range between the two distances of `crossing`.
    pub open spec fn spec_clip(range: Option<Interval>, crossing: Crossing) -> Option<Interval> {
        match range {
            Some(range) => Interval::spec_positive(crossing.first, crossing.second).spec_overlap(
                range,
            ),
            None => None,
        }
    }

    /// The part of `ray_t` on which a ray is inside a box: `ray_t` cut down
    /// on X, on Y and on Z in turn, and none once nothing is left.
    pub open spec fn spec_inside(crossings: Crossings, ray_t: Interval) -> Option<Interval> {
        Self::spec_clip(
            Self::spec_clip(Self::spec_clip(Some(ray_t), crossings.x), crossings.y),
            crossings.z,
        )
    }

    /// Whether a ray passes through a box within `ray_t`. `crossings`
    /// holds, for each axis, the two distances at which the ray goes
    /// through the two faces of the box; the caller works them out of the
    /// ray and the box. The ray passes where some stretch of `ray_t` lies
    /// between the two distances on every axis.
    pub fn hit(crossings: Crossings, ray_t: Interval) -> (r: bool)
        ensures
            r == Self::spec_inside(crossings, ray_t) is Some,
    {
        let mut ray_t = ray_t;
        let t_int = Interval::positive(crossings.x.first, crossings.x.second);
        if let Some(new_int) = t_int.overlap(&ray_t) {
            ray_t = new_int;
        } else {
            return false;
        }
        let t_int = Interval::positive(crossings.y.first, crossings.y.second);
        if let Some(new_int) = t_int.overlap(&ray_t) {
            ray_t = new_int;
        } else {
            return false;
        }
        let t_int = Interval::positive(crossings.z.first, crossings.z.second);
        if let Some(new_int) = t_int.overlap(&ray_t) {
            ray_t = new_int;
        } else {
            return false;
        }
        true
    }

    /// The box of the three ranges, with none of them narrower than a ten
    /// thousandth. `widen` gives the width of a range and the range with
    /// half a ten thousandth added on each side; a range whose width is
    /// below a ten thousandth gives way to the widened one, so that a flat
    /// box has some depth.
    pub fn new<F: Fn(Interval) -> Widening>(x: Interval, y: Interval, z: Interval, widen: &F) -> (r:
        BoundingBox3)
        requires
            forall|range: Interval| call_requires(widen, (range,)),
        ensures
            (BoundingBox3 { x, y, z }).padded_by(widen, r),
            forall|model: spec_fn(Interval) -> Widening|
                widen_refines(widen, model) ==> r == #[trigger] Self::spec_new(x, y, z, model),
    {
        let x = x.padded(widen);
        let y = y.padded(widen);
        let z = z.padded(widen);
        BoundingBox3 { x, y, z }
    }

    /// The box that holds nothing.
    pub fn empty() -> (r: BoundingBox3)
        ensures
            r == Self::spec_empty(),
    {
        BoundingBox3 { x: Interval::empty(), y: Interval::empty(), z: Interval::empty() }
    }

    /// The box that holds all of space.
    pub fn universe() -> (r: BoundingBox3)
        ensures
            r == Self::spec_universe(),
    {
        BoundingBox3 { x: Interval::universe(), y: Interval::universe(), z: Interval::universe() }
    }

    /// The box with the two points as opposite corners, whichever of them
    /// is the lower one on an axis, with no range narrower than a ten
    /// thousandth; `widen` is as for [`BoundingBox3::new`].
    pub fn bounded_by<F: Fn(Interval) -> Widening>(a: &Point3, b: &Point3, widen: &F) -> (r:
        BoundingBox3)
        requires
            forall|range: Interval| call_requires(widen, (range,)),
        ensures
            Self::spec_between(*a, *b).padded_by(widen, r),
            forall|model: spec_fn(Interval) -> Widening|
                widen_refines(widen, model) ==> r == #[trigger] Self::spec_bounded_by(
                    *a,
                    *b,
                    model,
                ),
    {
        let x = Interval::positive(a.x, b.x);
        let y = Interval::positive(a.y, b.y);
        let z = Interval::positive(a.z, b.z);
        Self::new(x, y, z, widen)
    }

    /// The smallest box that surrounds both boxes, with no range narrower
    /// than a ten thousandth; `widen` is as for [`BoundingBox3::new`]. Two
    /// boxes that hold nothing are surrounded by one that holds nothing.
    pub fn extending<F: Fn(Interval) -> Widening>(a: &BoundingBox3, b: &BoundingBox3, widen: &F) -> (r:
        BoundingBox3)
        requires
            forall|range: Interval| call_requires(widen, (range,)),
        ensures
            Self::spec_hull(*a, *b).padded_by(widen, r),
            forall|model: spec_fn(Interval) -> Widening|
                widen_refines(widen, model) ==> r == #[trigger] Self::spec_extending(
                    *a,
                    *b,
                    model,
                ),
    {
        let x = Interval::surrounding(&a.x, &b.x);
        let y = Interval::surrounding(&a.y, &b.y);
        let z = Interval::surrounding(&a.z, &b.z);
        Self::new(x, y, z, widen)
    }

    /// The smallest box that surrounds those of the two boxes that are
    /// there, with no range narrower than a ten thousandth; the empty box
    /// where neither is. `widen` is as for [`BoundingBox3::new`].
    pub fn extending_opt<F: Fn(Interval) -> Widening>(
        a: Option<&BoundingBox3>,
        b: Option<&BoundingBox3>,
        widen: &F,
    ) -> (r: BoundingBox3)
        requires
            forall|range: Interval| call_requires(widen, (range,)),
        ensures
            a is None && b is None ==> r == Self::spec_empty(),
            forall|model: spec_fn(Interval) -> Widening|
                #![trigger widen_refines(widen, model)]
                widen_refines(widen, model) ==> r == Self::spec_extending_opt(
                    match a {
                        Some(a) => Some(*a),
                        None => None,
                    },
                    match b {
                        Some(b) => Some(*b),
                        None => None,
                    },
                    model,
                ),
    {
        match (a, b) {
            (None, None) => Self::empty(),
            (None, Some(b)) => Self::new(b.x, b.y, b.z, widen),
            (Some(a), None) => Self::new(a.x, a.y, a.z, widen),
            (Some(a), Some(b)) => Self::extending(a, b, widen),
        }
    }

    /// The longest axis of a box with the extents given: the axis with the
    /// greatest extent, the earlier axis where two extents are equal, and X
    /// where no extent is above zero.
    pub fn longest_axis(extents: Extents) -> (r: Axis)
        ensures
            r == Self::spec_longest_axis(extents),
    {
        let x_size = extents.x;
        let y_size = extents.y;
        let z_size = extents.z;
        let mut axis = Axis::X;
        let mut longest = Scalar::zero();
        if x_size.ord() > longest.ord() {
            longest = x_size;
        }
        if y_size.ord() > longest.ord() {
            axis = Axis::Y;
            longest = y_size;
        }
        if z_size.ord() > longest.ord() {
            axis = Axis::Z;
        }
        axis
    }

    /// The range of the box along X.
    pub fn x(&self) -> (r: &Interval)
        ensures
            *r == self.x,
    {
        &self.x
    }

    /// The range of the box along Y.
    pub fn y(&self) -> (r: &Interval)
        ensures
            *r == self.y,
    {
        &self.y
    }

    /// The range of the box along Z.
    pub fn z(&self) -> (r: &Interval)
        ensures
            *r == self.z,
    {
        &self.z
    }

    /// The range of the box along `axis`.
    pub fn index(&self, axis: Axis) -> (r: &Interval)
        ensures
            *r == self.spec_index(axis),
    {
        match axis {
            Axis::X => &self.x,
            Axis::Y => &self.y,
            Axis::Z => &self.z,
        }
    }
}

/// The stretch on which a ray is inside a box lies in the range that was
/// asked for and, on each axis, between the two distances at which the ray
/// goes through the faces of the box; and it is more than a point.
pub proof fn lemma_inside(crossings: Crossings, ray_t: Interval)
    ensures
        match BoundingBox3::spec_inside(crossings, ray_t) {
            Some(left) => {
                &&& left.start.ord() < left.end.ord()
                &&& ray_t.encloses(left)
                &&& Interval::spec_positive(crossings.x.first, crossings.x.second).encloses(left)
                &&& Interval::spec_positive(crossings.y.first, crossings.y.second).encloses(left)
                &&& Interval::spec_positive(crossings.z.first, crossings.z.second).encloses(left)
            },
            None => true,
        },
{
}

/// A box that `widen` made is the box that every model of `widen` makes.
pub proof fn lemma_padded_by<F: Fn(Interval) -> Widening>(
    given: BoundingBox3,
    widen: &F,
    padded: BoundingBox3,
    model: spec_fn(Interval) -> Widening,
)
    requires
        given.padded_by(widen, padded),
        widen_refines(widen, model),
    ensures
        padded == BoundingBox3::spec_new(given.x, given.y, given.z, model),
{
}

/// Before any range is widened: the box around two boxes lies around both
/// and does not depend on which comes first, up to the two zeros; three
/// boxes can be surrounded from either side; the box that holds nothing
/// changes no box whose ends are numbers, itself included; and a box
/// surrounded with itself stays as it is.
pub proof fn lemma_hull(a: BoundingBox3, b: BoundingBox3, c: BoundingBox3)
    ensures
        BoundingBox3::spec_hull(a, b).encloses(a),
        BoundingBox3::spec_hull(a, b).encloses(b),
        BoundingBox3::spec_hull(a, b).same(BoundingBox3::spec_hull(b, a)),
        BoundingBox3::spec_hull(BoundingBox3::spec_hull(a, b), c) == BoundingBox3::spec_hull(
            a,
            BoundingBox3::spec_hull(b, c),
        ),
        a.is_number() ==> BoundingBox3::spec_hull(BoundingBox3::spec_empty(), a) == a
            && BoundingBox3::spec_hull(a, BoundingBox3::spec_empty()) == a,
        BoundingBox3::spec_hull(BoundingBox3::spec_empty(), BoundingBox3::spec_empty())
            == BoundingBox3::spec_empty(),
        BoundingBox3::spec_hull(a, a) == a,
{
    lemma_surrounding(a.x, b.x, c.x);
    lemma_surrounding(a.y, b.y, c.y);
    lemma_surrounding(a.z, b.z, c.z);
}

/// The order of the two boxes does not matter to `extending`, up to the two
/// zeros, where widening leaves alone what surrounds the two.
pub proof fn lemma_extending_commutative(
    a: BoundingBox3,
    b: BoundingBox3,
    model: spec_fn(Interval) -> Widening,
)
    requires
        BoundingBox3::spec_hull(a, b).settled(model),
        BoundingBox3::spec_hull(b, a).settled(model),
    ensures
        BoundingBox3::spec_extending(a, b, model).same(BoundingBox3::spec_extending(b, a, model)),
{
    lemma_hull(a, b, a);
}

/// Three boxes can be combined from either side, where widening leaves
/// alone what surrounds the first two, the last two and all three. Boxes
/// that were built are a ten thousandth wide, and so is all that surrounds
/// them.
pub proof fn lemma_extending_associative(
    a: BoundingBox3,
    b: BoundingBox3,
    c: BoundingBox3,
    model: spec_fn(Interval) -> Widening,
)
    requires
        BoundingBox3::spec_hull(a, b).settled(model),
        BoundingBox3::spec_hull(b, c).settled(model),
        BoundingBox3::spec_hull(BoundingBox3::spec_hull(a, b), c).settled(model),
    ensures
        BoundingBox3::spec_extending(BoundingBox3::spec_extending(a, b, model), c, model)
            == BoundingBox3::spec_extending(a, BoundingBox3::spec_extending(b, c, model), model),
{
    lemma_hull(a, b, c);
}

/// Combined with the empty box, a box whose ends are numbers and that
/// widening leaves alone stays as it is. The empty box is such a box where
/// widening leaves it alone: then two empty boxes combine to the empty
/// box.
pub proof fn lemma_extending_empty_identity(a: BoundingBox3, model: spec_fn(Interval) -> Widening)
    requires
        a.is_number(),
        a.settled(model),
    ensures
        BoundingBox3::spec_extending(BoundingBox3::spec_empty(), a, model) == a,
        BoundingBox3::spec_extending(a, BoundingBox3::spec_empty(), model) == a,
        BoundingBox3::spec_empty().is_number(),
{
    lemma_hull(a, a, a);
}

/// A box that widening leaves alone, combined with itself, stays as it is.
pub proof fn lemma_extending_idempotent(a: BoundingBox3, model: spec_fn(Interval) -> Widening)
    requires
        a.settled(model),
    ensures
        BoundingBox3::spec_extending(a, a, model) == a,
{
    lemma_hull(a, a, a);
}

/// What `extending` returns lies around both boxes, where no range gets
/// narrower by being widened.
pub proof fn lemma_extending_encloses(
    a: BoundingBox3,
    b: BoundingBox3,
    model: spec_fn(Interval) -> Widening,
)
    requires
        forall|range: Interval| (#[trigger] model(range)).expanded.encloses(range),
    ensures
        BoundingBox3::spec_extending(a, b, model).encloses(a),
        BoundingBox3::spec_extending(a, b, model).encloses(b),
{
    lemma_hull(a, b, a);
    let hull = BoundingBox3::spec_hull(a, b);
    assert(model(hull.x).expanded.encloses(hull.x));
    assert(model(hull.y).expanded.encloses(hull.y));
    assert(model(hull.z).expanded.encloses(hull.z));
}

/// A box that lies around a second one lies around all that the second one
/// lies around.
pub proof fn lemma_encloses_transitive(a: BoundingBox3, b: BoundingBox3, c: BoundingBox3)
    requires
        a.encloses(b),
        b.encloses(c),
    ensures
        a.encloses(c),
        a.encloses(a),
{
}

} // verus!
