//! The tree of boxes that finds the primitives near a ray.

use vstd::prelude::*;
use crate::axis::Axis;
use crate::boundingbox::lemma_encloses_transitive;
use crate::boundingbox::lemma_hull;
use crate::boundingbox::BoundingBox3;
use crate::boundingbox::Crossings;
use crate::boundingbox::Extents;
use crate::hittable::narrowed;
use crate::hittable::probe_refines;
use crate::hittable::spec_narrowed;
use crate::hittable::HitRecord;
use crate::hittable::Primitive;
use crate::math::interval::widen_refines;
use crate::math::interval::Interval;
use crate::math::interval::Widening;
use vstd::arithmetic::power2::lemma2_to64;
use vstd::arithmetic::power2::lemma_pow2_strictly_increases;
use vstd::arithmetic::power2::lemma_pow2_unfold;
use vstd::arithmetic::power2::pow2;
use vstd::seq_lib::to_multiset_contains;

verus! {

/// What hangs under a node of the tree: one primitive, or a further node.
#[derive(Debug)]
pub enum Child {
    Leaf(Primitive),
    Node(Box<BVHNode>),
}

/// A node of the tree: two children and a box around both.
#[derive(Debug)]
pub struct BVHNode {
    pub left: Child,
    pub right: Child,
    pub bbox: BoundingBox3,
}

/// Whether `crossings` gives for each box only what `model` gives.
pub open spec fn crossings_refines<B: Fn(BoundingBox3) -> Crossings>(
    crossings: &B,
    model: spec_fn(BoundingBox3) -> Crossings,
) -> bool {
    forall|bbox: BoundingBox3, r: Crossings| #[trigger]
        call_ensures(crossings, (bbox,), r) ==> r == model(bbox)
}

/// Whether a ray passes through a box within `range`, where `crossings`
/// gives the distances at which the ray goes through the faces of the box.
pub open spec fn spec_enters(
    crossings: spec_fn(BoundingBox3) -> Crossings,
    bbox: BoundingBox3,
    range: Interval,
) -> bool {
    BoundingBox3::spec_inside(crossings(bbox), range) is Some
}

/// The box around the primitives of a list: the empty box, extended by the
/// box of each primitive in turn, with no range narrower than a ten
/// thousandth; `model` tells how ranges are widened.
pub open spec fn bvh_box(objects: Seq<Primitive>, model: spec_fn(Interval) -> Widening)
    -> BoundingBox3
    decreases objects.len(),
{
    if objects.len() == 0 {
        BoundingBox3::spec_empty()
    } else {
        BoundingBox3::spec_extending(
            bvh_box(objects.drop_last(), model),
            objects.last().bounding_box,
            model,
        )
    }
}

/// The box around the primitives of a list as it is where no range is
/// widened: the empty box, surrounded with the box of each primitive in
/// turn.
pub open spec fn bvh_hull(objects: Seq<Primitive>) -> BoundingBox3
    decreases objects.len(),
{
    if objects.len() == 0 {
        BoundingBox3::spec_empty()
    } else {
        BoundingBox3::spec_hull(bvh_hull(objects.drop_last()), objects.last().bounding_box)
    }
}

/// Whether the box of each primitive of the list has numbers as its ends.
pub open spec fn all_boxed(objects: Seq<Primitive>) -> bool {
    forall|k: int| 0 <= k < objects.len() ==> (#[trigger] objects[k]).bounding_box.is_number()
}

/// Whether widening leaves alone every range that lies around a range of a
/// box of the list. It does where the boxes of the list are a ten
/// thousandth wide on every axis, as boxes that were built are, and a range
/// around a range is no narrower than it.
pub open spec fn settled(objects: Seq<Primitive>, model: spec_fn(Interval) -> Widening) -> bool {
    forall|range: Interval, k: int, axis: Axis|
        0 <= k < objects.len() && #[trigger] range.encloses(
            objects[k].bounding_box.spec_index(axis),
        ) ==> range.spec_padded(model) == range
}

/// Whether the list is in the order of the starts of its boxes along `axis`.
pub open spec fn sorted_on(objects: Seq<Primitive>, axis: Axis) -> bool {
    forall|i: int, j: int|
        0 <= i <= j < objects.len() ==> (#[trigger] objects[i]).spec_start_on(axis).ord() <= (
        #[trigger] objects[j]).spec_start_on(axis).ord()
}

impl Child {
    /// The box of the child: that of the primitive or that of the node.
    pub open spec fn bounding_box(self) -> BoundingBox3 {
        match self {
            Child::Leaf(p) => p.bounding_box,
            Child::Node(node) => node.bbox,
        }
    }

    /// The primitives under the child.
    pub open spec fn leaves(self) -> Set<Primitive>
        decreases self,
    {
        match self {
            Child::Leaf(p) => set![p],
            Child::Node(node) => node.leaves(),
        }
    }

    /// How many nodes lie on the longest way down from the child: none for
    /// a leaf.
    pub open spec fn depth(self) -> nat
        decreases self,
    {
        match self {
            Child::Leaf(_) => 0,
            Child::Node(node) => node.depth(),
        }
    }

    /// Whether each node under the child is well formed.
    pub open spec fn wf(self) -> bool
        decreases self,
    {
        match self {
            Child::Leaf(_) => true,
            Child::Node(node) => node.wf(),
        }
    }

    /// What a query of the child returns under the two models: what the
    /// primitive returns, or what the node does.
    pub open spec fn spec_hit(
        self,
        range: Interval,
        crossings: spec_fn(BoundingBox3) -> Crossings,
        probe: spec_fn(Primitive, Interval) -> Option<HitRecord>,
    ) -> Option<HitRecord>
        decreases self,
    {
        match self {
            Child::Leaf(p) => probe(p, range),
            Child::Node(node) => node.spec_hit(range, crossings, probe),
        }
    }

    /// Whether the child was built of `n` primitives: a leaf never is.
    pub open spec fn is_built<F: Fn(BoundingBox3) -> Extents>(self, n: nat, extents: &F) -> bool
        decreases self,
    {
        match self {
            Child::Leaf(_) => false,
            Child::Node(node) => node.is_built(n, extents),
        }
    }
}

impl BVHNode {
    /// The primitives under the node.
    pub open spec fn leaves(self) -> Set<Primitive>
        decreases self,
    {
        self.left.leaves().union(self.right.leaves())
    }

    /// How many nodes lie on the longest way down from the node, the node
    /// itself included.
    pub open spec fn depth(self) -> nat
        decreases self,
    {
        if self.left.depth() >= self.right.depth() {
            1 + self.left.depth()
        } else {
            1 + self.right.depth()
        }
    }

    /// Whether the box of each node lies around the boxes of its two
    /// children, here and below.
    pub open spec fn wf(self) -> bool
        decreases self,
    {
        &&& self.bbox.encloses(self.left.bounding_box())
        &&& self.bbox.encloses(self.right.bounding_box())
        &&& self.left.wf()
        &&& self.right.wf()
    }

    /// What a query of the node returns, where `crossings` gives the
    /// distances at which the ray goes through the faces of each box and
    /// `probe` what each primitive returns on each range. Nothing where the
    /// ray does not pass through the box of the node within the range. Else the left child is asked on the whole range and the right
    /// child on the range up to the left hit; the right hit is returned
    /// where there is one, else the left one.
    pub open spec fn spec_hit(
        self,
        range: Interval,
        crossings: spec_fn(BoundingBox3) -> Crossings,
        probe: spec_fn(Primitive, Interval) -> Option<HitRecord>,
    ) -> Option<HitRecord>
        decreases self,
    {
        if !spec_enters(crossings, self.bbox, range) {
            None
        } else {
            let hit_left = self.left.spec_hit(range, crossings, probe);
            let hit_right = self.right.spec_hit(spec_narrowed(range, hit_left), crossings, probe);
            match hit_right {
                Some(hit) => Some(hit),
                None => hit_left,
            }
        }
    }

    /// Whether the node has the shape and the order of a tree built of `n`
    /// primitives. Of one primitive: two equal leaves. Of two: two leaves.
    /// Of more: two nodes, built of the lower half and of the rest, and no
    /// box under the left node starts after one under the right node along
    /// the longest axis of the box of the node, for extents that `extents`
    /// can give for that box.
    pub open spec fn is_built<F: Fn(BoundingBox3) -> Extents>(self, n: nat, extents: &F) -> bool
        decreases self,
    {
        if n == 1 {
            self.left is Leaf && self.right == self.left
        } else if n == 2 {
            self.left is Leaf && self.right is Leaf
        } else {
            &&& self.left.is_built(n / 2, extents)
            &&& self.right.is_built((n - n / 2) as nat, extents)
            &&& exists|sizes: Extents|
                {
                    &&& #[trigger] call_ensures(extents, (self.bbox,), sizes)
                    &&& forall|a: Primitive, b: Primitive|
                        #![trigger self.left.leaves().contains(a), self.right.leaves().contains(b)]
                        self.left.leaves().contains(a) && self.right.leaves().contains(b)
                            ==> a.spec_start_on(
                            BoundingBox3::spec_longest_axis(sizes),
                        ).ord() <= b.spec_start_on(
                            BoundingBox3::spec_longest_axis(sizes),
                        ).ord()
                }
        }
    }

    /// The box around all that hangs under the node.
    pub fn bounding_box(&self) -> (r: Option<&BoundingBox3>)
        ensures
            r == Some(&self.bbox),
    {
        Some(&self.bbox)
    }
}

/// The box around the primitives of a list.
fn surrounding_box<W: Fn(Interval) -> Widening>(objects: &Vec<Primitive>, widen: &W) -> (r:
    BoundingBox3)
    requires
        forall|range: Interval| call_requires(widen, (range,)),
    ensures
        objects@.len() == 0 ==> r == BoundingBox3::spec_empty(),
        forall|model: spec_fn(Interval) -> Widening|
            widen_refines(widen, model) ==> r == #[trigger] bvh_box(objects@, model),
{
    let mut bbox = BoundingBox3::empty();
    let mut i: usize = 0;
    while i < objects.len()
        invariant
            0 <= i <= objects@.len(),
            forall|range: Interval| call_requires(widen, (range,)),
            i == 0 ==> bbox == BoundingBox3::spec_empty(),
            forall|model: spec_fn(Interval) -> Widening|
                widen_refines(widen, model) ==> bbox == #[trigger] bvh_box(
                    objects@.take(i as int),
                    model,
                ),
        decreases objects@.len() - i,
    {
        let ghost before = bbox;
        bbox = BoundingBox3::extending_opt(Some(&bbox), Some(&objects[i].bounding_box), widen);
        proof {
            let seen = objects@.take(i as int + 1);
            assert(seen.drop_last() == objects@.take(i as int));
            assert(seen.last() == objects@[i as int]);
            assert forall|model: spec_fn(Interval) -> Widening|
                widen_refines(widen, model) implies bbox == #[trigger] bvh_box(seen, model) by {
                assert(before == bvh_box(objects@.take(i as int), model));
                assert(bbox == BoundingBox3::spec_extending_opt(
                    Some(before),
                    Some(objects@[i as int].bounding_box),
                    model,
                ));
            }
        }
        i = i + 1;
    }
    proof {
        assert(objects@.take(i as int) == objects@);
    }
    bbox
}

/// Sorts the list by the starts of the boxes along `axis`, with
/// `slice::sort_unstable_by_key` of the standard library. It is taken on
/// trust that the call leaves the list in the order of its keys and holding
/// what it held before, each primitive as often as before; the order of
/// primitives with equal keys is left open.
#[verifier::external_body]
fn sort_by_start(objects: &mut Vec<Primitive>, axis: Axis)
    ensures
        final(objects)@.to_multiset() == old(objects)@.to_multiset(),
        sorted_on(final(objects)@, axis),
{
    objects.sort_unstable_by_key(|p| p.start_key(axis));
}

/// The box around a list lies around the box of each primitive of the list.
pub proof fn lemma_bvh_hull_encloses_member(objects: Seq<Primitive>, k: int)
    requires
        0 <= k < objects.len(),
    ensures
        bvh_hull(objects).encloses(objects[k].bounding_box),
    decreases objects.len(),
{
    let before = bvh_hull(objects.drop_last());
    let last = objects.last().bounding_box;
    lemma_hull(before, last, last);
    if k < objects.len() - 1 {
        lemma_bvh_hull_encloses_member(objects.drop_last(), k);
        lemma_encloses_transitive(bvh_hull(objects), before, objects[k].bounding_box);
    }
}

/// Where no range is widened, the box around a list of boxes whose ends are
/// numbers has numbers as its ends, and it is the least such box: a box
/// with numbers as its ends that lies around each box of the list lies
/// around the box of the list.
pub proof fn lemma_bvh_hull_least(objects: Seq<Primitive>, outer: BoundingBox3)
    requires
        all_boxed(objects),
        outer.is_number(),
        forall|k: int| 0 <= k < objects.len() ==> outer.encloses(#[trigger] objects[k].bounding_box),
    ensures
        bvh_hull(objects).is_number(),
        outer.encloses(bvh_hull(objects)),
    decreases objects.len(),
{
    if objects.len() > 0 {
        let rest = objects.drop_last();
        assert forall|k: int| 0 <= k < rest.len() implies outer.encloses(
            #[trigger] rest[k].bounding_box,
        ) by {
            assert(rest[k] == objects[k]);
        }
        assert(all_boxed(rest)) by {
            assert forall|k: int| 0 <= k < rest.len() implies (
            #[trigger] rest[k]).bounding_box.is_number() by {
                assert(rest[k] == objects[k]);
            }
        }
        lemma_bvh_hull_least(rest, outer);
        assert(objects.last() == objects[objects.len() - 1]);
        lemma_hull(bvh_hull(rest), objects.last().bounding_box, outer);
    }
}

/// Where no range is widened, the box around a part of a list of boxes
/// whose ends are numbers lies inside the box around the whole list.
pub proof fn lemma_bvh_hull_of_part(part: Seq<Primitive>, whole: Seq<Primitive>)
    requires
        all_boxed(whole),
        forall|k: int| 0 <= k < part.len() ==> whole.contains(#[trigger] part[k]),
    ensures
        all_boxed(part),
        bvh_hull(whole).encloses(bvh_hull(part)),
{
    assert forall|k: int| 0 <= k < part.len() implies (#[trigger] part[k]).bounding_box.is_number()
        && bvh_hull(whole).encloses(part[k].bounding_box) by {
        assert(whole.contains(part[k]));
        let j = choose|j: int| 0 <= j < whole.len() && whole[j] == part[k];
        lemma_bvh_hull_encloses_member(whole, j);
    }
    lemma_bvh_hull_least(whole, BoundingBox3::spec_universe());
    lemma_bvh_hull_least(part, bvh_hull(whole));
}

/// Where widening leaves alone all that lies around a box of the list, the
/// box around the list is the box that surrounds its boxes, none widened.
pub proof fn lemma_settled_box(objects: Seq<Primitive>, model: spec_fn(Interval) -> Widening)
    requires
        settled(objects, model),
    ensures
        bvh_box(objects, model) == bvh_hull(objects),
    decreases objects.len(),
{
    if objects.len() > 0 {
        let rest = objects.drop_last();
        let last = objects.last();
        assert(settled(rest, model)) by {
            assert forall|range: Interval, k: int, axis: Axis|
                0 <= k < rest.len() && #[trigger] range.encloses(
                    rest[k].bounding_box.spec_index(axis),
                ) implies range.spec_padded(model) == range by {
                assert(rest[k] == objects[k]);
                assert(range.encloses(objects[k].bounding_box.spec_index(axis)));
            }
        }
        lemma_settled_box(rest, model);
        let hull = BoundingBox3::spec_hull(bvh_hull(rest), last.bounding_box);
        lemma_hull(bvh_hull(rest), last.bounding_box, last.bounding_box);
        assert(last == objects[objects.len() - 1]);
        assert(hull.x.encloses(objects[objects.len() - 1].bounding_box.spec_index(Axis::X)));
        assert(hull.y.encloses(objects[objects.len() - 1].bounding_box.spec_index(Axis::Y)));
        assert(hull.z.encloses(objects[objects.len() - 1].bounding_box.spec_index(Axis::Z)));
    }
}

/// What widening leaves alone around the boxes of a list, it leaves alone
/// around the boxes of a part of the list.
pub proof fn lemma_settled_part(
    part: Seq<Primitive>,
    whole: Seq<Primitive>,
    model: spec_fn(Interval) -> Widening,
)
    requires
        settled(whole, model),
        forall|k: int| 0 <= k < part.len() ==> whole.contains(#[trigger] part[k]),
    ensures
        settled(part, model),
{
    assert forall|range: Interval, k: int, axis: Axis|
        0 <= k < part.len() && #[trigger] range.encloses(
            part[k].bounding_box.spec_index(axis),
        ) implies range.spec_padded(model) == range by {
        assert(whole.contains(part[k]));
        let j = choose|j: int| 0 <= j < whole.len() && whole[j] == part[k];
        assert(range.encloses(whole[j].bounding_box.spec_index(axis)));
    }
}

/// A tree built of `n` primitives is as shallow as a tree of two children
/// at each node can be: its depth is the least number of halvings that
/// bring `n` down to one, and 1 for a single primitive.
pub proof fn lemma_built_is_balanced<F: Fn(BoundingBox3) -> Extents>(
    node: BVHNode,
    n: nat,
    extents: &F,
)
    requires
        n >= 1,
        node.is_built(n, extents),
    ensures
        node.depth() >= 1,
        n <= pow2(node.depth()),
        n >= 2 ==> pow2((node.depth() - 1) as nat) < n,
    decreases node,
{
    lemma2_to64();
    if n >= 3 {
        let a = n / 2;
        let b = (n - n / 2) as nat;
        let left = node.left->Node_0;
        let right = node.right->Node_0;
        lemma_built_is_balanced(*left, a, extents);
        lemma_built_is_balanced(*right, b, extents);
        let dl = left.depth();
        let dr = right.depth();
        lemma_pow2_unfold(dl);
        lemma_pow2_unfold(dr);
        lemma_pow2_unfold(node.depth());
        if dl < dr {
            lemma_pow2_strictly_increases(dl, dr);
        } else if dr < dl {
            lemma_pow2_strictly_increases(dr, dl);
        }
        if a == 1 {
            assert(dl == 1);
        }
    }
}

/// A list of one primitive holds that one and no other; a list of two holds
/// those two and no other.
proof fn lemma_short_list(objects: Seq<Primitive>)
    requires
        1 <= objects.len() <= 2,
    ensures
        objects.len() == 1 ==> objects.to_set() =~= set![objects[0]],
        objects.len() == 2 ==> objects.to_set() =~= set![objects[0]].union(set![objects[1]]),
{
    assert forall|p: Primitive| objects.contains(p) implies p == objects[0] || (objects.len() == 2
        && p == objects[1]) by {
        let k = choose|k: int| 0 <= k < objects.len() && objects[k] == p;
    }
    assert(objects.contains(objects[0]));
    if objects.len() == 2 {
        assert(objects.contains(objects[1]));
    }
}

/// What the two halves of a sorted list hold: together what the list held
/// before it was sorted, and nothing in the lower half starts after
/// anything in the upper half. Where no range is widened, the box around
/// the unsorted list lies around the boxes of both halves.
proof fn lemma_halves(given: Seq<Primitive>, sorted: Seq<Primitive>, mid: int, axis: Axis)
    requires
        sorted.to_multiset() == given.to_multiset(),
        sorted_on(sorted, axis),
        0 <= mid <= sorted.len(),
    ensures
        sorted.len() == given.len(),
        sorted.subrange(0, mid).to_set().union(sorted.subrange(mid, sorted.len() as int).to_set())
            =~= given.to_set(),
        forall|a: Primitive, b: Primitive|
            #![trigger sorted.subrange(0, mid).contains(a), sorted.subrange(mid, sorted.len() as int).contains(b)]
            sorted.subrange(0, mid).contains(a) && sorted.subrange(
                mid,
                sorted.len() as int,
            ).contains(b) ==> a.spec_start_on(axis).ord() <= b.spec_start_on(axis).ord(),
        forall|k: int|
            0 <= k < mid ==> given.contains(#[trigger] sorted.subrange(0, mid)[k]),
        forall|k: int|
            0 <= k < sorted.len() - mid ==> given.contains(
                #[trigger] sorted.subrange(mid, sorted.len() as int)[k],
            ),
        all_boxed(given) ==> all_boxed(sorted.subrange(0, mid)) && all_boxed(
            sorted.subrange(mid, sorted.len() as int),
        ) && bvh_hull(given).encloses(bvh_hull(sorted.subrange(0, mid))) && bvh_hull(given).encloses(
            bvh_hull(sorted.subrange(mid, sorted.len() as int)),
        ),
{
    let low = sorted.subrange(0, mid);
    let high = sorted.subrange(mid, sorted.len() as int);
    sorted.to_multiset_ensures();
    given.to_multiset_ensures();
    assert forall|p: Primitive| sorted.contains(p) <==> given.contains(p) by {
        to_multiset_contains(sorted, p);
        to_multiset_contains(given, p);
    }
    assert forall|k: int| 0 <= k < low.len() implies given.contains(#[trigger] low[k]) by {
        assert(low[k] == sorted[k]);
        assert(sorted.contains(sorted[k]));
    }
    assert forall|k: int| 0 <= k < high.len() implies given.contains(#[trigger] high[k]) by {
        assert(high[k] == sorted[mid + k]);
        assert(sorted.contains(sorted[mid + k]));
    }
    assert forall|p: Primitive| given.contains(p) implies low.contains(p) || high.contains(p) by {
        assert(sorted.contains(p));
        let k = choose|k: int| 0 <= k < sorted.len() && sorted[k] == p;
        if k < mid {
            assert(low[k] == p);
        } else {
            assert(high[k - mid] == p);
        }
    }
    assert forall|a: Primitive, b: Primitive| low.contains(a) && high.contains(b) implies a.spec_start_on(
        axis,
    ).ord() <= b.spec_start_on(axis).ord() by {
        let i = choose|i: int| 0 <= i < low.len() && low[i] == a;
        let j = choose|j: int| 0 <= j < high.len() && high[j] == b;
        assert(sorted[i] == a);
        assert(sorted[mid + j] == b);
    }
    if all_boxed(given) {
        lemma_bvh_hull_of_part(low, given);
        lemma_bvh_hull_of_part(high, given);
    }
}

impl BVHNode {
    /// Builds the tree over a list of at least one primitive.
    ///
    /// The box of the node is the box around the list. One primitive hangs
    /// under the node twice, two hang under it in their order. A longer
    /// list is sorted by where the boxes start along the longest axis of the
    /// box of the node, and cut in two at the middle: the lower half,
    /// rounded down, is built into the left child and the rest into the
    /// right. `extents` gives the extents of a box along X, Y and Z, of
    /// which [`BoundingBox3::longest_axis`] picks the longest; `widen` is
    /// as for [`BoundingBox3::new`].
    ///
    /// Where widening leaves alone all that lies around a box of the list,
    /// as it does for boxes that were built, the box of each node lies
    /// around the boxes of its children.
    pub fn new<F: Fn(BoundingBox3) -> Extents, W: Fn(Interval) -> Widening>(
        objects: Vec<Primitive>,
        extents: &F,
        widen: &W,
    ) -> (node: BVHNode)
        requires
            objects@.len() >= 1,
            forall|bbox: BoundingBox3| call_requires(extents, (bbox,)),
            forall|range: Interval| call_requires(widen, (range,)),
        ensures
            forall|model: spec_fn(Interval) -> Widening|
                #![trigger widen_refines(widen, model)]
                widen_refines(widen, model) ==> node.bbox == bvh_box(objects@, model) && (
                all_boxed(objects@) && settled(objects@, model) ==> node.wf()),
            node.leaves() =~= objects@.to_set(),
            node.is_built(objects@.len(), extents),
            objects@.len() == 1 ==> node.left == Child::Leaf(objects@[0]),
            objects@.len() == 2 ==> node.left == Child::Leaf(objects@[0]) && node.right
                == Child::Leaf(objects@[1]),
        decreases objects@.len(),
    {
        let bbox = surrounding_box(&objects, widen);
        let sizes = extents(bbox);
        let axis = BoundingBox3::longest_axis(sizes);
        let n = objects.len();
        if n == 1 {
            let only = objects[0];
            let node = BVHNode { left: Child::Leaf(only), right: Child::Leaf(only), bbox };
            proof {
                lemma_bvh_hull_encloses_member(objects@, 0);
                lemma_short_list(objects@);
                assert forall|model: spec_fn(Interval) -> Widening|
                    #![trigger widen_refines(widen, model)]
                    widen_refines(widen, model) && settled(objects@, model) implies node.wf() by {
                    assert(bbox == bvh_box(objects@, model));
                    lemma_settled_box(objects@, model);
                }
            }
            node
        } else if n == 2 {
            let first = objects[0];
            let second = objects[1];
            let node = BVHNode { left: Child::Leaf(first), right: Child::Leaf(second), bbox };
            proof {
                lemma_bvh_hull_encloses_member(objects@, 0);
                lemma_bvh_hull_encloses_member(objects@, 1);
                lemma_short_list(objects@);
                assert forall|model: spec_fn(Interval) -> Widening|
                    #![trigger widen_refines(widen, model)]
                    widen_refines(widen, model) && settled(objects@, model) implies node.wf() by {
                    assert(bbox == bvh_box(objects@, model));
                    lemma_settled_box(objects@, model);
                }
            }
            node
        } else {
            let ghost given = objects@;
            let mut lower = objects;
            sort_by_start(&mut lower, axis);
            let ghost sorted = lower@;
            proof {
                sorted.to_multiset_ensures();
                given.to_multiset_ensures();
            }
            let mid = n / 2;
            let upper = lower.split_off(mid);
            let ghost low = lower@;
            let ghost high = upper@;
            proof {
                lemma_halves(given, sorted, mid as int, axis);
            }
            let left = BVHNode::new(lower, extents, widen);
            let right = BVHNode::new(upper, extents, widen);
            let node = BVHNode {
                left: Child::Node(Box::new(left)),
                right: Child::Node(Box::new(right)),
                bbox,
            };
            proof {
                assert(node.left.leaves() == low.to_set());
                assert(node.right.leaves() == high.to_set());
                assert(node.leaves() =~= given.to_set());
                assert(call_ensures(extents, (node.bbox,), sizes));
                assert(node.left.is_built((n / 2) as nat, extents));
                assert(node.right.is_built((n - n / 2) as nat, extents));
                assert(node.is_built(n as nat, extents));
                assert forall|model: spec_fn(Interval) -> Widening|
                    #![trigger widen_refines(widen, model)]
                    widen_refines(widen, model) && all_boxed(given) && settled(
                        given,
                        model,
                    ) implies node.wf() by {
                    assert(bbox == bvh_box(given, model));
                    assert(left.bbox == bvh_box(low, model));
                    assert(right.bbox == bvh_box(high, model));
                    lemma_settled_part(low, given, model);
                    lemma_settled_part(high, given, model);
                    lemma_settled_box(given, model);
                    lemma_settled_box(low, model);
                    lemma_settled_box(high, model);
                    assert(left.wf());
                    assert(right.wf());
                }
            }
            node
        }
    }

    /// The nearest hit under the node within `ray_t`. `crossings` gives the
    /// distances at which the ray goes through the faces of a box, and
    /// `probe` tests one primitive on one range.
    ///
    /// Nothing is returned where the ray does not pass through the box of
    /// the node within `ray_t`, as [`BoundingBox3::hit`] tells. Else the left child is asked on `ray_t` and the right child
    /// on the range from the start of `ray_t` to the left hit, or on `ray_t`
    /// where the left child gave none. The right hit is returned where
    /// there is one, else the left one.
    ///
    /// Whatever the two tests return, a hit that comes back is one that
    /// `probe` gave for a primitive under the node. Where both are
    /// functions of their arguments, the result is that of
    /// [`BVHNode::spec_hit`].
    pub fn hit<B: Fn(BoundingBox3) -> Crossings, P: Fn(Primitive, Interval) -> Option<HitRecord>>(
        &self,
        ray_t: Interval,
        crossings: &B,
        probe: &P,
    ) -> (r: Option<HitRecord>)
        requires
            forall|bbox: BoundingBox3| call_requires(crossings, (bbox,)),
            forall|p: Primitive, range: Interval| call_requires(probe, (p, range)),
        ensures
            forall|
                crossings_model: spec_fn(BoundingBox3) -> Crossings,
                probe_model: spec_fn(Primitive, Interval) -> Option<HitRecord>,
            |
                crossings_refines(crossings, crossings_model) && probe_refines(probe, probe_model) ==> r
                    == #[trigger] self.spec_hit(ray_t, crossings_model, probe_model),
            r is Some ==> exists|p: Primitive, range: Interval|
                self.leaves().contains(p) && range.start == ray_t.start && #[trigger] call_ensures(
                    probe,
                    (p, range),
                    r,
                ),
        decreases self,
    {
        let c = crossings(self.bbox);
        let entered = BoundingBox3::hit(c, ray_t);
        if !entered {
            proof {
                assert forall|
                    crossings_model: spec_fn(BoundingBox3) -> Crossings,
                    probe_model: spec_fn(Primitive, Interval) -> Option<HitRecord>,
                |
                    crossings_refines(crossings, crossings_model) && probe_refines(
                        probe,
                        probe_model,
                    ) implies #[trigger] self.spec_hit(ray_t, crossings_model, probe_model) is None by {
                    assert(call_ensures(crossings, (self.bbox,), c));
                }
            }
            return None;
        }
        let hit_left = self.left.hit(ray_t, crossings, probe);
        let rest = narrowed(ray_t, &hit_left);
        let hit_right = self.right.hit(rest, crossings, probe);
        let r = match hit_right {
            Some(hit) => Some(hit),
            None => hit_left,
        };
        proof {
            assert forall|
                crossings_model: spec_fn(BoundingBox3) -> Crossings,
                probe_model: spec_fn(Primitive, Interval) -> Option<HitRecord>,
            |
                crossings_refines(crossings, crossings_model) && probe_refines(probe, probe_model) implies r
                == #[trigger] self.spec_hit(ray_t, crossings_model, probe_model) by {
                assert(call_ensures(crossings, (self.bbox,), c));
                assert(hit_left == self.left.spec_hit(ray_t, crossings_model, probe_model));
                assert(hit_right == self.right.spec_hit(rest, crossings_model, probe_model));
            }
            if r is Some {
                if hit_right is Some {
                    let (p, range) = choose|p: Primitive, range: Interval|
                        self.right.leaves().contains(p) && range.start == rest.start
                            && #[trigger] call_ensures(probe, (p, range), hit_right);
                    assert(self.leaves().contains(p) && range.start == ray_t.start && call_ensures(
                        probe,
                        (p, range),
                        r,
                    ));
                } else {
                    let (p, range) = choose|p: Primitive, range: Interval|
                        self.left.leaves().contains(p) && range.start == ray_t.start
                            && #[trigger] call_ensures(probe, (p, range), hit_left);
                    assert(self.leaves().contains(p) && range.start == ray_t.start && call_ensures(
                        probe,
                        (p, range),
                        r,
                    ));
                }
            }
        }
        r
    }
}

impl Child {
    /// The nearest hit under the child within `ray_t`: what `probe` gives
    /// for the primitive, or what the node returns.
    pub fn hit<B: Fn(BoundingBox3) -> Crossings, P: Fn(Primitive, Interval) -> Option<HitRecord>>(
        &self,
        ray_t: Interval,
        crossings: &B,
        probe: &P,
    ) -> (r: Option<HitRecord>)
        requires
            forall|bbox: BoundingBox3| call_requires(crossings, (bbox,)),
            forall|p: Primitive, range: Interval| call_requires(probe, (p, range)),
        ensures
            forall|
                crossings_model: spec_fn(BoundingBox3) -> Crossings,
                probe_model: spec_fn(Primitive, Interval) -> Option<HitRecord>,
            |
                crossings_refines(crossings, crossings_model) && probe_refines(probe, probe_model) ==> r
                    == #[trigger] self.spec_hit(ray_t, crossings_model, probe_model),
            r is Some ==> exists|p: Primitive, range: Interval|
                self.leaves().contains(p) && range.start == ray_t.start && #[trigger] call_ensures(
                    probe,
                    (p, range),
                    r,
                ),
        decreases self,
    {
        match self {
            Child::Leaf(p) => {
                let r = probe(*p, ray_t);
                proof {
                    assert(self.leaves().contains(*p));
                    assert(call_ensures(probe, (*p, ray_t), r));
                    assert forall|
                        crossings_model: spec_fn(BoundingBox3) -> Crossings,
                        probe_model: spec_fn(Primitive, Interval) -> Option<HitRecord>,
                    |
                        crossings_refines(crossings, crossings_model) && probe_refines(
                            probe,
                            probe_model,
                        ) implies r == #[trigger] self.spec_hit(ray_t, crossings_model, probe_model) by {
                        assert(r == probe_model(*p, ray_t));
                    }
                }
                r
            },
            Child::Node(node) => {
                let r = node.hit(ray_t, crossings, probe);
                proof {
                    assert(self.leaves() == node.leaves());
                    assert forall|
                        crossings_model: spec_fn(BoundingBox3) -> Crossings,
                        probe_model: spec_fn(Primitive, Interval) -> Option<HitRecord>,
                    |
                        crossings_refines(crossings, crossings_model) && probe_refines(
                            probe,
                            probe_model,
                        ) implies r == #[trigger] self.spec_hit(ray_t, crossings_model, probe_model) by {
                        assert(r == node.spec_hit(ray_t, crossings_model, probe_model));
                    }
                }
                r
            },
        }
    }
}

} // verus!
