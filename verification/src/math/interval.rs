//! Closed ranges of scalars.

use vstd::prelude::*;
use crate::math::scalar::Scalar;
use crate::math::scalar::INFINITY_BITS;
use crate::math::scalar::NEG_INFINITY_BITS;

verus! {

/// The order of a ten thousandth: the least width that a range of a box
/// may have.
pub const MIN_WIDTH_ORD: i64 = 0x3F1A_36E2_EB1C_432D;

/// The closed range from `start` to `end`. A range whose start lies above its
/// end holds nothing.
#[derive(Clone, Copy, Debug, PartialEq, Eq, Structural)]
pub struct Interval {
    pub start: Scalar,
    pub end: Scalar,
}

/// The width of a range, and the range made wider: half the least width
/// added on each side.
#[derive(Clone, Copy, Debug, PartialEq, Eq, Structural)]
pub struct Widening {
    pub size: Scalar,
    pub expanded: Interval,
}

/// Whether `widen` gives for each range only what `model` gives.
pub open spec fn widen_refines<F: Fn(Interval) -> Widening>(
    widen: &F,
    model: spec_fn(Interval) -> Widening,
) -> bool {
    forall|range: Interval, w: Widening| #[trigger]
        call_ensures(widen, (range,), w) ==> w == model(range)
}

impl Interval {
    /// Whether the start does not lie above the end.
    pub open spec fn is_positive(self) -> bool {
        self.start.ord() <= self.end.ord()
    }

    /// Whether the two ranges have ends of the same order.
    pub open spec fn same(self, other: Interval) -> bool {
        self.start.same(other.start) && self.end.same(other.end)
    }

    /// Whether the two ends are numbers.
    pub open spec fn is_number(self) -> bool {
        self.start.is_number() && self.end.is_number()
    }

    /// Whether this range starts no higher and ends no lower than `inner`.
    pub open spec fn encloses(self, inner: Interval) -> bool {
        self.start.ord() <= inner.start.ord() && inner.end.ord() <= self.end.ord()
    }

    /// Whether `item` lies in the range, the two ends included.
    pub open spec fn spec_contains(self, item: Scalar) -> bool {
        self.start.ord() <= item.ord() <= self.end.ord()
    }

    /// Whether `item` lies in the range and on neither end.
    pub open spec fn spec_surrounds(self, item: Scalar) -> bool {
        self.start.ord() < item.ord() < self.end.ord()
    }

    /// The range that two ranges share, if it is more than a point.
    pub open spec fn spec_overlap(self, rhs: Interval) -> Option<Interval> {
        let start = self.start.spec_max(rhs.start);
        let end = self.end.spec_min(rhs.end);
        if end.ord() <= start.ord() {
            None
        } else {
            Some(Interval { start, end })
        }
    }

    /// The range between the two scalars, whichever order they come in.
    pub open spec fn spec_positive(a: Scalar, b: Scalar) -> Interval {
        if a.ord() <= b.ord() {
            Interval { start: a, end: b }
        } else {
            Interval { start: b, end: a }
        }
    }

    /// The range from the lower of the two starts to the higher of the two
    /// ends. The range that surrounds two ranges that hold nothing may hold
    /// nothing.
    pub open spec fn spec_surrounding(a: Interval, b: Interval) -> Interval {
        Interval { start: a.start.spec_min(b.start), end: a.end.spec_max(b.end) }
    }

    /// The range, or the range `expanded` in its place where `size` is
    /// below a ten thousandth.
    pub open spec fn spec_widened(self, size: Scalar, expanded: Interval) -> Interval {
        if size.ord() < MIN_WIDTH_ORD {
            expanded
        } else {
            self
        }
    }

    /// The range as a box holds it, where `model` tells the width of a
    /// range and the range widened: the range itself where it is a ten
    /// thousandth wide at least, and the widened range where it is not.
    pub open spec fn spec_padded(self, model: spec_fn(Interval) -> Widening) -> Interval {
        self.spec_widened(model(self).size, model(self).expanded)
    }

    /// Whether `padded` is the range as a box holds it by something that
    /// `widen` can return for the range.
    pub open spec fn padded_by<F: Fn(Interval) -> Widening>(
        self,
        widen: &F,
        padded: Interval,
    ) -> bool {
        exists|w: Widening| #[trigger]
            call_ensures(widen, (self,), w) && padded == self.spec_widened(w.size, w.expanded)
    }

    /// The member of the range nearest to `item`.
    pub open spec fn spec_clamp(self, item: Scalar) -> Scalar {
        if item.ord() < self.start.ord() {
            self.start
        } else if item.ord() > self.end.ord() {
            self.end
        } else {
            item
        }
    }

    /// The range from negative to positive infinity.
    pub open spec fn spec_universe() -> Interval {
        Interval {
            start: Scalar { bits: NEG_INFINITY_BITS },
            end: Scalar { bits: INFINITY_BITS },
        }
    }

    /// The range from positive to negative infinity, which holds nothing.
    pub open spec fn spec_empty() -> Interval {
        Interval {
            start: Scalar { bits: INFINITY_BITS },
            end: Scalar { bits: NEG_INFINITY_BITS },
        }
    }

    /// The range from `start` to `end`, in the order given.
    pub fn new(start: Scalar, end: Scalar) -> (r: Interval)
        ensures
            r == (Interval { start, end }),
    {
        Interval { start, end }
    }

    /// The range between `a` and `b`, with the smaller one as its start.
    pub fn positive(a: Scalar, b: Scalar) -> (r: Interval)
        ensures
            r == Self::spec_positive(a, b),
            r.is_positive(),
    {
        if a.ord() <= b.ord() {
            Interval { start: a, end: b }
        } else {
            Interval { start: b, end: a }
        }
    }

    /// The part that the two ranges share; `None` where they share nothing
    /// or a single point.
    pub fn overlap(&self, rhs: &Interval) -> (r: Option<Interval>)
        ensures
            r == self.spec_overlap(*rhs),
    {
        let start = self.start.max(rhs.start);
        let end = self.end.min(rhs.end);
        if end.ord() <= start.ord() {
            None
        } else {
            Some(Interval { start, end })
        }
    }

    /// The smallest range that covers both ranges: from the lower of the
    /// two starts to the higher of the two ends. The ends are not put in
    /// order: two ranges that hold nothing are surrounded by one that holds
    /// nothing.
    pub fn surrounding(a: &Interval, b: &Interval) -> (r: Interval)
        ensures
            r == Self::spec_surrounding(*a, *b),
    {
        Interval { start: a.start.min(b.start), end: a.end.max(b.end) }
    }

    /// The range that holds nothing.
    pub fn empty() -> (r: Interval)
        ensures
            r == Self::spec_empty(),
    {
        Interval { start: Scalar::infinity(), end: Scalar::neg_infinity() }
    }

    /// The range that holds every number.
    pub fn universe() -> (r: Interval)
        ensures
            r == Self::spec_universe(),
    {
        Interval { start: Scalar::neg_infinity(), end: Scalar::infinity() }
    }

    /// The range, or the wider range `expanded` in its place where the
    /// range is narrower than a ten thousandth. `size` is the width of the
    /// range and `expanded` the range with half a ten thousandth added on
    /// each side; the caller works both out.
    pub fn widened(&self, size: Scalar, expanded: Interval) -> (r: Interval)
        ensures
            r == self.spec_widened(size, expanded),
    {
        if size.ord() < MIN_WIDTH_ORD {
            expanded
        } else {
            *self
        }
    }

    /// The range as a box holds it: no narrower than a ten thousandth.
    /// `widen` gives the width of a range and the range with half a ten
    /// thousandth added on each side. A range whose width is below a ten
    /// thousandth gives way to the widened range, any other stays as it
    /// is.
    pub fn padded<F: Fn(Interval) -> Widening>(&self, widen: &F) -> (r: Interval)
        requires
            forall|range: Interval| call_requires(widen, (range,)),
        ensures
            self.padded_by(widen, r),
            forall|model: spec_fn(Interval) -> Widening|
                widen_refines(widen, model) ==> r == #[trigger] self.spec_padded(model),
    {
        let w = widen(*self);
        proof {
            assert(call_ensures(widen, (*self,), w));
        }
        self.widened(w.size, w.expanded)
    }

    /// The lower end.
    pub fn start(&self) -> (r: Scalar)
        ensures
            r == self.start,
    {
        self.start
    }

    /// The upper end.
    pub fn end(&self) -> (r: Scalar)
        ensures
            r == self.end,
    {
        self.end
    }

    /// Whether `item` lies in the range, the two ends included.
    pub fn contains(&self, item: Scalar) -> (r: bool)
        ensures
            r == self.spec_contains(item),
    {
        self.start.ord() <= item.ord() && item.ord() <= self.end.ord()
    }

    /// Whether `item` lies in the range and on neither end.
    pub fn surrounds(&self, item: Scalar) -> (r: bool)
        ensures
            r == self.spec_surrounds(item),
    {
        self.start.ord() < item.ord() && item.ord() < self.end.ord()
    }

    /// `item` if the range holds it, else the end of the range on the side
    /// of `item`.
    pub fn clamp(&self, item: Scalar) -> (r: Scalar)
        ensures
            r == self.spec_clamp(item),
    {
        if item.ord() < self.start.ord() {
            self.start
        } else if item.ord() > self.end.ord() {
            self.end
        } else {
            item
        }
    }
}

/// An ordered range holds what `clamp` returns, and `clamp` leaves the
/// members of the range alone.
pub proof fn lemma_clamp(range: Interval, item: Scalar)
    requires
        range.is_positive(),
    ensures
        range.spec_contains(range.spec_clamp(item)),
        range.spec_contains(item) ==> range.spec_clamp(item) == item,
{
}

/// What two ranges share does not depend on their order, holds what both hold
/// and nothing else, and is there wherever some scalar lies strictly inside
/// both.
pub proof fn lemma_overlap(a: Interval, b: Interval, item: Scalar)
    ensures
        a.spec_overlap(b) is Some <==> b.spec_overlap(a) is Some,
        a.spec_overlap(b) is Some ==> a.spec_overlap(b)->0.same(b.spec_overlap(a)->0),
        a.spec_overlap(b) is Some ==> (a.spec_overlap(b)->0.spec_contains(item) <==> a.spec_contains(
            item,
        ) && b.spec_contains(item)),
        a.spec_surrounds(item) && b.spec_surrounds(item) ==> a.spec_overlap(b) is Some,
{
}

/// The range around two ranges lies around both and does not depend on
/// which comes first, up to the two zeros; three ranges can be surrounded
/// from either side; and the range that holds nothing changes no range
/// whose ends are numbers, itself included.
pub proof fn lemma_surrounding(a: Interval, b: Interval, c: Interval)
    ensures
        Interval::spec_surrounding(a, b).encloses(a),
        Interval::spec_surrounding(a, b).encloses(b),
        Interval::spec_surrounding(a, b).same(Interval::spec_surrounding(b, a)),
        Interval::spec_surrounding(Interval::spec_surrounding(a, b), c)
            == Interval::spec_surrounding(a, Interval::spec_surrounding(b, c)),
        a.is_number() ==> Interval::spec_surrounding(Interval::spec_empty(), a) == a
            && Interval::spec_surrounding(a, Interval::spec_empty()) == a,
        Interval::spec_surrounding(Interval::spec_empty(), Interval::spec_empty())
            == Interval::spec_empty(),
        Interval::spec_surrounding(a, a) == a,
{
}

} // verus!
