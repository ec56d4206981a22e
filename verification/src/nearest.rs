//! Why the tree and the list find the same hit: both find the nearest one.

use vstd::prelude::*;
use crate::boundingbox::BoundingBox3;
use crate::boundingbox::Crossings;
use crate::bvh::spec_enters;
use crate::bvh::BVHNode;
use crate::bvh::Child;
use crate::hittable::scan_hit;
use crate::hittable::spec_narrowed;
use crate::hittable::upto;
use crate::hittable::HitRecord;
use crate::hittable::Primitive;
use crate::math::interval::Interval;
use crate::math::scalar::Scalar;

verus! {

/// Whether no primitive is hit beyond the end of the range it is tested on.
pub open spec fn hits_within(probe: spec_fn(Primitive, Interval) -> Option<HitRecord>) -> bool {
    forall|p: Primitive, range: Interval|
        (#[trigger] probe(p, range)) is Some ==> probe(p, range)->0.t.ord() <= range.end.ord()
}

/// Whether moving the end of a range nearer changes no hit that is still
/// inside: a hit on the shorter range is the hit on the longer one, and a
/// hit on the longer range that lies before the new end is the hit on the
/// shorter one.
pub open spec fn hits_stable(probe: spec_fn(Primitive, Interval) -> Option<HitRecord>) -> bool {
    forall|p: Primitive, range: Interval, end: Scalar|
        end.ord() <= range.end.ord() ==> {
            &&& (#[trigger] probe(p, upto(range, end))) is Some ==> probe(p, range) == probe(
                p,
                upto(range, end),
            )
            &&& probe(p, range) is Some && probe(p, range)->0.t.ord() < end.ord() ==> probe(
                p,
                upto(range, end),
            ) == probe(p, range)
        }
}

/// Whether no two primitives are hit at the same distance.
pub open spec fn hits_distinct(probe: spec_fn(Primitive, Interval) -> Option<HitRecord>) -> bool {
    forall|p: Primitive, q: Primitive, first: Interval, second: Interval|
        p != q && (#[trigger] probe(p, first)) is Some && (#[trigger] probe(q, second)) is Some
            ==> probe(p, first)->0.t.ord() != probe(q, second)->0.t.ord()
}

/// Whether `found` is the nearest hit among `members` on `range`: nothing
/// where no member is hit, else the hit of a member that no hit of a member
/// lies before.
pub open spec fn nearest_among(
    found: Option<HitRecord>,
    members: Set<Primitive>,
    range: Interval,
    probe: spec_fn(Primitive, Interval) -> Option<HitRecord>,
) -> bool {
    match found {
        None => forall|p: Primitive| members.contains(p) ==> (#[trigger] probe(p, range)) is None,
        Some(hit) => {
            &&& exists|p: Primitive| members.contains(p) && #[trigger] probe(p, range) == Some(hit)
            &&& forall|q: Primitive|
                members.contains(q) && (#[trigger] probe(q, range)) is Some ==> hit.t.ord()
                    <= probe(q, range)->0.t.ord()
        },
    }
}

impl Child {
    /// Whether the boxes are sound at each node under the child.
    pub open spec fn sound(
        self,
        crossings: spec_fn(BoundingBox3) -> Crossings,
        probe: spec_fn(Primitive, Interval) -> Option<HitRecord>,
    ) -> bool
        decreases self,
    {
        match self {
            Child::Leaf(_) => true,
            Child::Node(node) => node.sound(crossings, probe),
        }
    }
}

impl BVHNode {
    /// Whether the boxes are sound: wherever a primitive under a node is
    /// hit on a range, the ray passes through the box of that node within
    /// that range, by the distances that `crossings` gives. Here and below.
    pub open spec fn sound(
        self,
        crossings: spec_fn(BoundingBox3) -> Crossings,
        probe: spec_fn(Primitive, Interval) -> Option<HitRecord>,
    ) -> bool
        decreases self,
    {
        &&& forall|p: Primitive, range: Interval|
            self.leaves().contains(p) && (#[trigger] probe(p, range)) is Some ==> spec_enters(
                crossings,
                self.bbox,
                range,
            )
        &&& self.left.sound(crossings, probe)
        &&& self.right.sound(crossings, probe)
    }
}

/// The step that both searches are made of. Where `first` is the nearest hit
/// among some primitives on a range, and `second` the nearest among others
/// on what is left of the range after `first`, then `second`, or `first`
/// where there is no `second`, is the nearest hit among all of them.
pub proof fn lemma_nearest_of_two(
    first: Option<HitRecord>,
    second: Option<HitRecord>,
    some: Set<Primitive>,
    others: Set<Primitive>,
    range: Interval,
    probe: spec_fn(Primitive, Interval) -> Option<HitRecord>,
)
    requires
        hits_within(probe),
        hits_stable(probe),
        nearest_among(first, some, range, probe),
        nearest_among(second, others, spec_narrowed(range, first), probe),
    ensures
        nearest_among(
            match second {
                Some(hit) => Some(hit),
                None => first,
            },
            some.union(others),
            range,
            probe,
        ),
{
    let all = some.union(others);
    match first {
        None => {
            assert(spec_narrowed(range, first) == range);
            match second {
                None => {},
                Some(hit) => {
                    let p = choose|p: Primitive|
                        others.contains(p) && #[trigger] probe(p, range) == Some(hit);
                    assert(all.contains(p));
                },
            }
        },
        Some(x) => {
            let near = upto(range, x.t);
            let p = choose|p: Primitive| some.contains(p) && #[trigger] probe(p, range) == Some(x);
            assert(x.t.ord() <= range.end.ord());
            match second {
                None => {
                    assert(all.contains(p));
                    assert forall|q: Primitive|
                        all.contains(q) && (#[trigger] probe(q, range)) is Some implies x.t.ord()
                        <= probe(q, range)->0.t.ord() by {
                        if others.contains(q) {
                            assert(probe(q, near) is None);
                        }
                    }
                },
                Some(hit) => {
                    let q = choose|q: Primitive|
                        others.contains(q) && #[trigger] probe(q, near) == Some(hit);
                    assert(probe(q, range) == Some(hit));
                    assert(hit.t.ord() <= near.end.ord());
                    assert(all.contains(q));
                    assert forall|s: Primitive|
                        all.contains(s) && (#[trigger] probe(s, range)) is Some implies hit.t.ord()
                        <= probe(s, range)->0.t.ord() by {
                        if others.contains(s) {
                            if probe(s, range)->0.t.ord() < x.t.ord() {
                                assert(probe(s, near) == probe(s, range));
                            }
                        }
                    }
                },
            }
        },
    }
}

/// A search of the list in order finds the nearest hit among the primitives
/// of the list.
pub proof fn lemma_scan_finds_nearest(
    objects: Seq<Primitive>,
    range: Interval,
    probe: spec_fn(Primitive, Interval) -> Option<HitRecord>,
)
    requires
        hits_within(probe),
        hits_stable(probe),
    ensures
        nearest_among(scan_hit(objects, range, probe), objects.to_set(), range, probe),
    decreases objects.len(),
{
    if objects.len() > 0 {
        let rest = objects.drop_last();
        let last = objects.last();
        let before = scan_hit(rest, range, probe);
        let near = spec_narrowed(range, before);
        lemma_scan_finds_nearest(rest, range, probe);
        assert(nearest_among(probe(last, near), set![last], near, probe));
        lemma_nearest_of_two(before, probe(last, near), rest.to_set(), set![last], range, probe);
        assert(rest.to_set().union(set![last]) =~= objects.to_set()) by {
            assert forall|p: Primitive| objects.contains(p) implies rest.contains(p) || p
                == last by {
                let k = choose|k: int| 0 <= k < objects.len() && objects[k] == p;
                if k < rest.len() {
                    assert(rest[k] == p);
                }
            }
            assert forall|p: Primitive| rest.contains(p) implies objects.contains(p) by {
                let k = choose|k: int| 0 <= k < rest.len() && rest[k] == p;
                assert(objects[k] == p);
            }
            assert(objects.contains(last)) by {
                assert(objects[objects.len() - 1] == last);
            }
        }
    } else {
        assert forall|p: Primitive| !objects.to_set().contains(p) by {
            if objects.contains(p) {
                let k = choose|k: int| 0 <= k < objects.len() && objects[k] == p;
            }
        }
    }
}

/// A query of a child finds the nearest hit among the primitives under it,
/// where the boxes are sound.
pub proof fn lemma_child_finds_nearest(
    child: Child,
    range: Interval,
    crossings: spec_fn(BoundingBox3) -> Crossings,
    probe: spec_fn(Primitive, Interval) -> Option<HitRecord>,
)
    requires
        hits_within(probe),
        hits_stable(probe),
        child.sound(crossings, probe),
    ensures
        nearest_among(child.spec_hit(range, crossings, probe), child.leaves(), range, probe),
    decreases child,
{
    match child {
        Child::Leaf(p) => {
            assert(child.leaves().contains(p));
        },
        Child::Node(node) => {
            lemma_tree_finds_nearest(*node, range, crossings, probe);
        },
    }
}

/// A query of the tree finds the nearest hit among the primitives under it,
/// where the boxes are sound.
pub proof fn lemma_tree_finds_nearest(
    node: BVHNode,
    range: Interval,
    crossings: spec_fn(BoundingBox3) -> Crossings,
    probe: spec_fn(Primitive, Interval) -> Option<HitRecord>,
)
    requires
        hits_within(probe),
        hits_stable(probe),
        node.sound(crossings, probe),
    ensures
        nearest_among(node.spec_hit(range, crossings, probe), node.leaves(), range, probe),
    decreases node,
{
    if spec_enters(crossings, node.bbox, range) {
        let hit_left = node.left.spec_hit(range, crossings, probe);
        let near = spec_narrowed(range, hit_left);
        let hit_right = node.right.spec_hit(near, crossings, probe);
        lemma_child_finds_nearest(node.left, range, crossings, probe);
        lemma_child_finds_nearest(node.right, near, crossings, probe);
        lemma_nearest_of_two(
            hit_left,
            hit_right,
            node.left.leaves(),
            node.right.leaves(),
            range,
            probe,
        );
    }
}

/// Two nearest hits among the same primitives lie at the same distance, and
/// are one hit where no two primitives are hit at the same distance.
pub proof fn lemma_nearest_is_one(
    first: Option<HitRecord>,
    second: Option<HitRecord>,
    members: Set<Primitive>,
    range: Interval,
    probe: spec_fn(Primitive, Interval) -> Option<HitRecord>,
)
    requires
        nearest_among(first, members, range, probe),
        nearest_among(second, members, range, probe),
    ensures
        first is Some <==> second is Some,
        first is Some ==> first->0.t.ord() == second->0.t.ord(),
        hits_distinct(probe) ==> first == second,
{
    match (first, second) {
        (Some(x), Some(y)) => {
            let p = choose|p: Primitive| members.contains(p) && #[trigger] probe(p, range) == Some(x);
            let q = choose|q: Primitive| members.contains(q) && #[trigger] probe(q, range) == Some(y);
            assert(probe(p, range) is Some);
            assert(probe(q, range) is Some);
        },
        (Some(x), None) => {
            let p = choose|p: Primitive| members.contains(p) && #[trigger] probe(p, range) == Some(x);
            assert(probe(p, range) is Some);
        },
        (None, Some(y)) => {
            let q = choose|q: Primitive| members.contains(q) && #[trigger] probe(q, range) == Some(y);
            assert(probe(q, range) is Some);
        },
        (None, None) => {},
    }
}

/// A query of the tree returns what a search of the list in order returns,
/// for every list that holds the primitives under the tree and for every
/// range: both return the nearest hit.
///
/// This holds where each test is a function of the primitive and the range
/// that gives no hit beyond the end of the range and is stable when the end
/// moves nearer, where the boxes are sound, and where no two primitives
/// are hit at the same distance. Without the last condition the two hits
/// still lie at the same distance.
pub proof fn lemma_tree_matches_scan(
    node: BVHNode,
    objects: Seq<Primitive>,
    range: Interval,
    crossings: spec_fn(BoundingBox3) -> Crossings,
    probe: spec_fn(Primitive, Interval) -> Option<HitRecord>,
)
    requires
        hits_within(probe),
        hits_stable(probe),
        node.sound(crossings, probe),
        node.leaves() =~= objects.to_set(),
    ensures
        node.spec_hit(range, crossings, probe) is Some <==> scan_hit(objects, range, probe) is Some,
        node.spec_hit(range, crossings, probe) is Some ==> node.spec_hit(range, crossings, probe)->0.t.ord()
            == scan_hit(objects, range, probe)->0.t.ord(),
        hits_distinct(probe) ==> node.spec_hit(range, crossings, probe) == scan_hit(
            objects,
            range,
            probe,
        ),
{
    lemma_tree_finds_nearest(node, range, crossings, probe);
    lemma_scan_finds_nearest(objects, range, probe);
    lemma_nearest_is_one(
        node.spec_hit(range, crossings, probe),
        scan_hit(objects, range, probe),
        node.leaves(),
        range,
        probe,
    );
}

} // verus!
