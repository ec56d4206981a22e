//! What a ray meets: the record of a hit, the handle of a primitive and the
//! list of a scene's primitives.

use vstd::prelude::*;
use crate::axis::Axis;
use crate::boundingbox::BoundingBox3;
use crate::math::interval::widen_refines;
use crate::math::interval::Interval;
use crate::math::interval::Widening;
use crate::math::point::Point3;
use crate::math::scalar::Scalar;
use crate::math::vec::Normalized;
use crate::math::vec::Vec3;

verus! {

/// Where and how a ray met a surface.
#[derive(Clone, Copy, Debug, PartialEq)]
pub struct HitRecord {
    /// The point where the ray met the surface.
    pub point: Point3,
    /// The normal of the surface at that point, on the side that the ray
    /// came from.
    pub normal: Vec3<Normalized>,
    /// The handle of the material of the surface.
    pub material: usize,
    /// The first texture coordinate.
    pub u: Scalar,
    /// The second texture coordinate.
    pub v: Scalar,
    /// How far along the ray the point lies.
    pub t: Scalar,
    /// Whether the ray met the surface from outside.
    pub front_face: bool,
}

/// A primitive of the scene as a query sees it: the handle by which the
/// caller finds it again, and its box.
#[derive(Clone, Copy, Debug, PartialEq, Eq, Structural)]
pub struct Primitive {
    pub id: usize,
    pub bounding_box: BoundingBox3,
}

/// The primitives of a scene in the order they were added, with the box
/// around all of them.
#[derive(Debug)]
pub struct HittableVec {
    pub objects: Vec<Primitive>,
    pub bounding_box: Option<BoundingBox3>,
}

/// Whether a test gives, for each primitive and range, only what `model`
/// gives: whether `model` says all that the test can return.
pub open spec fn probe_refines<P: Fn(Primitive, Interval) -> Option<HitRecord>>(
    probe: &P,
    model: spec_fn(Primitive, Interval) -> Option<HitRecord>,
) -> bool {
    forall|p: Primitive, range: Interval, r: Option<HitRecord>| #[trigger]
        call_ensures(probe, (p, range), r) ==> r == model(p, range)
}

/// The range with its end moved to `end`.
pub open spec fn upto(range: Interval, end: Scalar) -> Interval {
    Interval { start: range.start, end }
}

/// The range that is left to search once `found` has been met: up to the
/// hit where there is one, the whole of `range` where there is none.
pub open spec fn spec_narrowed(range: Interval, found: Option<HitRecord>) -> Interval {
    match found {
        Some(hit) => upto(range, hit.t),
        None => range,
    }
}

/// The range that is left to search once `found` has been met: from the
/// start of `range` to the hit where there is one, the whole of `range`
/// where there is none.
pub fn narrowed(range: Interval, found: &Option<HitRecord>) -> (r: Interval)
    ensures
        r == spec_narrowed(range, *found),
{
    match found {
        Some(hit) => Interval::new(range.start, hit.t),
        None => range,
    }
}

/// The box around the primitives of a list: that of the first one, extended
/// by each of the others in turn, with no range narrower than a ten
/// thousandth; none for the empty list.
pub open spec fn list_box(
    objects: Seq<Primitive>,
    model: spec_fn(Interval) -> Widening,
) -> Option<BoundingBox3>
    decreases objects.len(),
{
    if objects.len() == 0 {
        None
    } else {
        spec_added(list_box(objects.drop_last(), model), objects.last(), model)
    }
}

/// The box of a list after the primitive `obj` was added to it: the box of
/// the primitive where the list was empty, else the box of the list
/// extended by that of the primitive.
pub open spec fn spec_added(
    before: Option<BoundingBox3>,
    obj: Primitive,
    model: spec_fn(Interval) -> Widening,
) -> Option<BoundingBox3> {
    match before {
        None => Some(obj.bounding_box),
        Some(bbox) => Some(BoundingBox3::spec_extending(bbox, obj.bounding_box, model)),
    }
}

/// What a search of the list in order returns, where `model` says what each
/// primitive returns on each range: each primitive is tested on the range
/// up to the last hit before it, and the last hit of all is returned.
pub open spec fn scan_hit(
    objects: Seq<Primitive>,
    range: Interval,
    model: spec_fn(Primitive, Interval) -> Option<HitRecord>,
) -> Option<HitRecord>
    decreases objects.len(),
{
    if objects.len() == 0 {
        None
    } else {
        let before = scan_hit(objects.drop_last(), range, model);
        match model(objects.last(), spec_narrowed(range, before)) {
            Some(hit) => Some(hit),
            None => before,
        }
    }
}

impl Primitive {
    /// Where the box of the primitive starts along `axis`.
    pub open spec fn spec_start_on(self, axis: Axis) -> Scalar {
        self.bounding_box.spec_index(axis).start
    }

    /// The primitive with handle `id` and box `bounding_box`.
    pub fn new(id: usize, bounding_box: BoundingBox3) -> (r: Primitive)
        ensures
            r == (Primitive { id, bounding_box }),
    {
        Primitive { id, bounding_box }
    }

    /// Where the box of the primitive starts along `axis`.
    pub fn start_on(&self, axis: Axis) -> (r: Scalar)
        ensures
            r == self.spec_start_on(axis),
    {
        self.bounding_box.index(axis).start
    }

    /// The order of the start of the box along `axis`: the key by which
    /// primitives are sorted.
    pub fn start_key(&self, axis: Axis) -> (r: i64)
        ensures
            r == self.spec_start_on(axis).ord(),
    {
        self.start_on(axis).ord()
    }
}

impl HitRecord {
    /// The record of a hit on a surface whose outward normal is `normal`,
    /// where `facing` is the product of the ray's direction and that normal:
    /// below zero the ray came from outside and the normal stays, else it
    /// came from inside and the normal is turned round.
    pub open spec fn spec_from_incoming_ray(
        facing: Scalar,
        point: Point3,
        normal: Vec3<Normalized>,
        t: Scalar,
        u: Scalar,
        v: Scalar,
        material: usize,
    ) -> HitRecord {
        let front_face = facing.ord() < 0;
        HitRecord {
            point,
            normal: if front_face {
                normal
            } else {
                normal.spec_neg()
            },
            material,
            u,
            v,
            t,
            front_face,
        }
    }

    /// The point where the ray met the surface.
    pub fn point(&self) -> (r: Point3)
        ensures
            r == self.point,
    {
        self.point
    }

    /// The normal of the surface, on the side that the ray came from.
    pub fn normal(&self) -> (r: Vec3<Normalized>)
        ensures
            r == self.normal,
    {
        self.normal
    }

    /// How far along the ray the point lies.
    pub fn t(&self) -> (r: Scalar)
        ensures
            r == self.t,
    {
        self.t
    }

    /// The first texture coordinate.
    pub fn u(&self) -> (r: Scalar)
        ensures
            r == self.u,
    {
        self.u
    }

    /// The second texture coordinate.
    pub fn v(&self) -> (r: Scalar)
        ensures
            r == self.v,
    {
        self.v
    }

    /// The handle of the material of the surface.
    pub fn material(&self) -> (r: usize)
        ensures
            r == self.material,
    {
        self.material
    }

    /// Whether the ray met the surface from outside.
    pub fn front_face(&self) -> (r: bool)
        ensures
            r == self.front_face,
    {
        self.front_face
    }

    /// The record of a hit at `point`, `t` along the ray, on a surface with
    /// outward normal `normal`. `facing` is the product of the ray's
    /// direction and that normal. The record's normal opposes the ray: it is
    /// `normal` where `facing` is below zero, and `normal` turned round
    /// where it is not.
    pub fn from_incoming_ray(
        facing: Scalar,
        point: &Point3,
        normal: &Vec3<Normalized>,
        t: Scalar,
        u: Scalar,
        v: Scalar,
        material: usize,
    ) -> (r: HitRecord)
        ensures
            r == Self::spec_from_incoming_ray(facing, *point, *normal, t, u, v, material),
            r.front_face <==> facing.ord() < 0,
    {
        let front_face = facing.ord() < 0;
        let normal = if front_face {
            *normal
        } else {
            normal.neg()
        };
        HitRecord { point: *point, normal, material, u, v, t, front_face }
    }

    /// Sets the side and the normal of the record from an outward normal
    /// and the product `facing` of the ray's direction and that normal, as
    /// `from_incoming_ray` does, and leaves the rest of the record alone.
    pub fn set_face_normal(&mut self, facing: Scalar, outward_normal: &Vec3<Normalized>)
        ensures
            *final(self) == Self::spec_from_incoming_ray(
                facing,
                old(self).point,
                *outward_normal,
                old(self).t,
                old(self).u,
                old(self).v,
                old(self).material,
            ),
    {
        self.front_face = facing.ord() < 0;
        self.normal = if self.front_face {
            *outward_normal
        } else {
            outward_normal.neg()
        };
    }
}

impl HittableVec {
    /// Whether the box of the list is the box around its primitives, where
    /// `model` tells how ranges are widened.
    pub open spec fn wf(self, model: spec_fn(Interval) -> Widening) -> bool {
        self.bounding_box == list_box(self.objects@, model)
    }

    /// The empty list.
    pub fn new() -> (r: HittableVec)
        ensures
            r.objects@ == Seq::<Primitive>::empty(),
            r.bounding_box is None,
            forall|model: spec_fn(Interval) -> Widening| #[trigger] r.wf(model),
    {
        HittableVec { objects: Vec::new(), bounding_box: None }
    }

    /// The empty list, with room for `cap` primitives.
    pub fn with_capacity(cap: usize) -> (r: HittableVec)
        ensures
            r.objects@ == Seq::<Primitive>::empty(),
            r.bounding_box is None,
            forall|model: spec_fn(Interval) -> Widening| #[trigger] r.wf(model),
    {
        HittableVec { objects: Vec::with_capacity(cap), bounding_box: None }
    }

    /// The list of the primitives given, in their order, with the box
    /// around them; `widen` is as for [`BoundingBox3::new`].
    pub fn from_vec<F: Fn(Interval) -> Widening>(objects: Vec<Primitive>, widen: &F) -> (r:
        HittableVec)
        requires
            forall|range: Interval| call_requires(widen, (range,)),
        ensures
            r.objects@ == objects@,
            objects@.len() == 0 ==> r.bounding_box is None,
            objects@.len() == 1 ==> r.bounding_box == Some(objects@[0].bounding_box),
            forall|model: spec_fn(Interval) -> Widening|
                widen_refines(widen, model) ==> #[trigger] r.wf(model),
    {
        let mut this = HittableVec::with_capacity(objects.len());
        let mut k: usize = 0;
        while k < objects.len()
            invariant
                0 <= k <= objects@.len(),
                forall|range: Interval| call_requires(widen, (range,)),
                this.objects@ == objects@.take(k as int),
                k == 0 ==> this.bounding_box is None,
                k == 1 ==> this.bounding_box == Some(objects@[0].bounding_box),
                forall|model: spec_fn(Interval) -> Widening|
                    widen_refines(widen, model) ==> #[trigger] this.wf(model),
            decreases objects@.len() - k,
        {
            this.add(objects[k], widen);
            proof {
                assert(objects@.take(k as int).push(objects@[k as int]) == objects@.take(
                    k as int + 1,
                ));
            }
            k = k + 1;
        }
        proof {
            assert(objects@.take(k as int) == objects@);
        }
        this
    }

    /// Adds a primitive at the end of the list and extends the box of the
    /// list by that of the primitive. The first primitive gives the list
    /// its own box; each further one extends the box as
    /// [`BoundingBox3::extending`] does, and `widen` is as there.
    pub fn add<F: Fn(Interval) -> Widening>(&mut self, obj: Primitive, widen: &F)
        requires
            forall|range: Interval| call_requires(widen, (range,)),
        ensures
            final(self).objects@ == old(self).objects@.push(obj),
            match old(self).bounding_box {
                None => final(self).bounding_box == Some(obj.bounding_box),
                Some(bbox) => final(self).bounding_box is Some && BoundingBox3::spec_hull(
                    bbox,
                    obj.bounding_box,
                ).padded_by(widen, final(self).bounding_box->0),
            },
            forall|model: spec_fn(Interval) -> Widening|
                #![trigger widen_refines(widen, model)]
                widen_refines(widen, model) ==> final(self).bounding_box == spec_added(
                    old(self).bounding_box,
                    obj,
                    model,
                ) && (old(self).wf(model) ==> final(self).wf(model)),
    {
        let bbox = match &self.bounding_box {
            Some(bbox) => BoundingBox3::extending(bbox, &obj.bounding_box, widen),
            None => obj.bounding_box,
        };
        self.bounding_box = Some(bbox);
        self.objects.push(obj);
        proof {
            assert(self.objects@.drop_last() == old(self).objects@);
            assert(self.objects@.last() == obj);
        }
    }

    /// The number of primitives in the list.
    pub fn len(&self) -> (r: usize)
        ensures
            r == self.objects@.len(),
    {
        self.objects.len()
    }

    /// The box around the primitives of the list; none for the empty list.
    pub fn bounding_box(&self) -> (r: Option<&BoundingBox3>)
        ensures
            match r {
                Some(bbox) => self.bounding_box == Some(*bbox),
                None => self.bounding_box is None,
            },
    {
        self.bounding_box.as_ref()
    }

    /// The nearest hit of the list within `ray_t`. `probe` tests one
    /// primitive on one range. The primitives are tested in order, each on
    /// the range from the start of `ray_t` to the nearest hit so far, and
    /// the last hit found is returned.
    ///
    /// Whatever `probe` returns, a hit that comes back is one that `probe`
    /// gave for a primitive of the list. Where `probe` is a function of its
    /// arguments, the result is that of [`scan_hit`].
    pub fn hit<P: Fn(Primitive, Interval) -> Option<HitRecord>>(
        &self,
        ray_t: Interval,
        probe: &P,
    ) -> (r: Option<HitRecord>)
        requires
            forall|p: Primitive, range: Interval| call_requires(probe, (p, range)),
        ensures
            forall|model: spec_fn(Primitive, Interval) -> Option<HitRecord>|
                probe_refines(probe, model) ==> r == #[trigger] scan_hit(
                    self.objects@,
                    ray_t,
                    model,
                ),
            r is Some ==> exists|k: int, range: Interval|
                0 <= k < self.objects@.len() && range.start == ray_t.start && #[trigger] call_ensures(
                    probe,
                    (self.objects@[k], range),
                    r,
                ),
            self.objects@.len() == 0 ==> r is None,
    {
        let mut closest_record: Option<HitRecord> = None;
        let mut closest_dist: Scalar = ray_t.end;
        let mut i: usize = 0;
        while i < self.objects.len()
            invariant
                0 <= i <= self.objects@.len(),
                forall|p: Primitive, range: Interval| call_requires(probe, (p, range)),
                spec_narrowed(ray_t, closest_record) == upto(ray_t, closest_dist),
                forall|model: spec_fn(Primitive, Interval) -> Option<HitRecord>|
                    probe_refines(probe, model) ==> closest_record == #[trigger] scan_hit(
                        self.objects@.take(i as int),
                        ray_t,
                        model,
                    ),
                closest_record is Some ==> exists|k: int, range: Interval|
                    0 <= k < i && range.start == ray_t.start && #[trigger] call_ensures(
                        probe,
                        (self.objects@[k], range),
                        closest_record,
                    ),
                i == 0 ==> closest_record is None,
            decreases self.objects@.len() - i,
        {
            let object = self.objects[i];
            let range = Interval::new(ray_t.start, closest_dist);
            let found = probe(object, range);
            let ghost before = closest_record;
            if let Some(record) = found {
                closest_dist = record.t;
                closest_record = Some(record);
            }
            proof {
                let seen = self.objects@.take(i as int + 1);
                assert(seen.drop_last() == self.objects@.take(i as int));
                assert(seen.last() == object);
                assert forall|model: spec_fn(Primitive, Interval) -> Option<HitRecord>|
                    probe_refines(probe, model) implies closest_record == #[trigger] scan_hit(
                    seen,
                    ray_t,
                    model,
                ) by {
                    assert(before == scan_hit(self.objects@.take(i as int), ray_t, model));
                    assert(found == model(object, range));
                }
            }
            i = i + 1;
        }
        proof {
            assert(self.objects@.take(i as int) == self.objects@);
        }
        closest_record
    }
}

} // verus!
