//! The primitives of a scene: what each of them decides once the numbers of
//! a ray have been worked out.

use vstd::prelude::*;
use crate::boundingbox::BoundingBox3;
use crate::hittable::upto;
use crate::math::interval::widen_refines;
use crate::math::interval::Interval;
use crate::math::interval::Widening;
use crate::math::point::Point3;
use crate::math::ray::Ray3;
use crate::math::scalar::Scalar;
use crate::math::scalar::ONE_ORD;
use crate::math::vec::Normalized;
use crate::math::vec::Vec3;

verus! {

/// The order of a hundred millionth: a ray whose direction has a smaller
/// product with the normal of a plane runs along the plane.
pub const PARALLEL_ORD: i64 = 0x3E45_798E_E230_8C3A;

/// The order of a half.
pub const HALF_ORD: i64 = 0x3FE0_0000_0000_0000;

/// A ball, which may move in a straight line while the image is taken.
#[derive(Clone, Copy, Debug)]
pub struct Sphere {
    /// Where the centre is at time zero, and how far it moves until time
    /// one.
    pub center: Ray3,
    pub radius: Scalar,
    /// The handle of the material.
    pub material: usize,
    /// The box around the ball at time zero and at time one.
    pub bounding_box: BoundingBox3,
}

/// What the three flat primitives share: a corner, two edges from it, and
/// what is worked out of them once.
#[derive(Clone, Copy, Debug)]
pub struct Planar {
    pub corner: Point3,
    pub u: Vec3,
    pub v: Vec3,
    /// The normal of the plane divided by its own square.
    pub w: Vec3,
    /// The product of the unit normal and the corner.
    pub d: Scalar,
    pub normal: Vec3<Normalized>,
    /// The handle of the material.
    pub material: usize,
    /// The box around the four corners of the parallelogram that the two
    /// edges span.
    pub bounding_box: BoundingBox3,
}

/// The parallelogram that two edges span.
#[derive(Clone, Copy, Debug)]
pub struct Parallelogram {
    pub plane: Planar,
    pub area: Scalar,
}

/// The triangle between a corner and the ends of two edges from it.
#[derive(Clone, Copy, Debug)]
pub struct Triangle {
    pub plane: Planar,
}

/// The ellipse inside the parallelogram that two edges span.
#[derive(Clone, Copy, Debug)]
pub struct Disc {
    pub plane: Planar,
}

/// A primitive moved by an offset.
#[derive(Clone, Copy, Debug)]
pub struct Translate {
    /// The handle of the primitive that is moved.
    pub object: usize,
    pub offset: Vec3,
    pub bounding_box: BoundingBox3,
}

/// A primitive turned about the Y axis.
#[derive(Clone, Copy, Debug)]
pub struct RotateY {
    /// The handle of the primitive that is turned.
    pub object: usize,
    pub sin_theta: Scalar,
    pub cos_theta: Scalar,
    pub bounding_box: BoundingBox3,
}

/// A volume of even density, such as smoke, inside a boundary.
#[derive(Clone, Copy, Debug)]
pub struct ConstantMedium {
    /// The handle of the primitive that bounds the volume.
    pub boundary: usize,
    /// Minus one divided by the density.
    pub inv_density: Scalar,
    /// The handle of the material that scatters a ray inside the volume.
    pub phase_fn: usize,
}

/// One side of a box: a corner and the two edges from it.
#[derive(Clone, Copy, Debug)]
pub struct Side {
    pub corner: Point3,
    pub u: Vec3,
    pub v: Vec3,
}

/// The box around a parallelogram with the corners `corner`, `across` from
/// it, and `along_u` and `along_v` at the ends of its two edges: the box of
/// one diagonal extended by that of the other, no range narrower than a ten
/// thousandth.
pub open spec fn spec_planar_box(
    corner: Point3,
    across: Point3,
    along_u: Point3,
    along_v: Point3,
    model: spec_fn(Interval) -> Widening,
) -> BoundingBox3 {
    BoundingBox3::spec_extending(
        BoundingBox3::spec_bounded_by(corner, across, model),
        BoundingBox3::spec_bounded_by(along_u, along_v, model),
        model,
    )
}

/// The box around a ball at the two ends of its way: the box between `low0`
/// and `high0` extended by the box between `low1` and `high1`, no range
/// narrower than a ten thousandth.
pub open spec fn spec_sphere_box(
    low0: Point3,
    high0: Point3,
    low1: Point3,
    high1: Point3,
    model: spec_fn(Interval) -> Widening,
) -> BoundingBox3 {
    BoundingBox3::spec_extending(
        BoundingBox3::spec_bounded_by(low0, high0, model),
        BoundingBox3::spec_bounded_by(low1, high1, model),
        model,
    )
}

/// Whether a plane is hit where the ray reaches it at `t`: the product
/// `denominator` of the unit normal and the direction of the ray is a
/// hundred millionth at least, either way, and `t` lies in `ray_t`.
pub open spec fn spec_plane_hit(ray_t: Interval, denominator: Scalar, t: Scalar) -> bool {
    denominator.spec_abs().ord() >= PARALLEL_ORD && ray_t.spec_contains(t)
}

/// Whether the plane of a flat primitive is hit where the ray reaches it
/// at `t`. `denominator` is the product of the unit normal of the plane and
/// the direction of the ray: nearer to zero than a hundred millionth, the
/// ray runs along the plane and misses it. Else the plane is hit where `t`
/// lies in `ray_t`, the two ends included.
pub fn plane_hit(ray_t: &Interval, denominator: Scalar, t: Scalar) -> (r: bool)
    ensures
        r == spec_plane_hit(*ray_t, denominator, t),
{
    if denominator.abs().ord() < PARALLEL_ORD {
        return false;
    }
    ray_t.contains(t)
}

/// The lower and the upper corner of the box between two points: on each
/// axis the smaller and the larger of the two coordinates.
pub fn box3_corners(a: &Point3, b: &Point3) -> (r: (Point3, Point3))
    ensures
        r.0 == (Point3 { x: a.x.spec_min(b.x), y: a.y.spec_min(b.y), z: a.z.spec_min(b.z) }),
        r.1 == (Point3 { x: a.x.spec_max(b.x), y: a.y.spec_max(b.y), z: a.z.spec_max(b.z) }),
{
    let min = Point3::new(a.x.min(b.x), a.y.min(b.y), a.z.min(b.z));
    let max = Point3::new(a.x.max(b.x), a.y.max(b.y), a.z.max(b.z));
    (min, max)
}

/// The vector along X of length `dx`.
pub open spec fn along_x(dx: Scalar) -> Vec3 {
    Vec3 {
        x: dx,
        y: Scalar { bits: 0 },
        z: Scalar { bits: 0 },
        normalized: core::marker::PhantomData,
    }
}

/// The vector along Y of length `dy`.
pub open spec fn along_y(dy: Scalar) -> Vec3 {
    Vec3 {
        x: Scalar { bits: 0 },
        y: dy,
        z: Scalar { bits: 0 },
        normalized: core::marker::PhantomData,
    }
}

/// The vector along Z of length `dz`.
pub open spec fn along_z(dz: Scalar) -> Vec3 {
    Vec3 {
        x: Scalar { bits: 0 },
        y: Scalar { bits: 0 },
        z: dz,
        normalized: core::marker::PhantomData,
    }
}

/// The six sides of the box between the lower corner `min` and the upper
/// corner `max`, whose extents along the axes are `dx`, `dy` and `dz`: the
/// front, the right, the back, the left, the top and the bottom.
pub open spec fn spec_box3(min: Point3, max: Point3, dx: Scalar, dy: Scalar, dz: Scalar) -> Seq<
    Side,
> {
    seq![
        Side { corner: Point3 { x: min.x, y: min.y, z: max.z }, u: along_x(dx), v: along_y(dy) },
        Side {
            corner: Point3 { x: max.x, y: min.y, z: max.z },
            u: along_z(dz).spec_neg(),
            v: along_y(dy),
        },
        Side {
            corner: Point3 { x: max.x, y: min.y, z: min.z },
            u: along_x(dx).spec_neg(),
            v: along_y(dy),
        },
        Side { corner: Point3 { x: min.x, y: min.y, z: min.z }, u: along_z(dz), v: along_y(dy) },
        Side {
            corner: Point3 { x: min.x, y: max.y, z: max.z },
            u: along_x(dx),
            v: along_z(dz).spec_neg(),
        },
        Side { corner: Point3 { x: min.x, y: min.y, z: min.z }, u: along_x(dx), v: along_z(dz) },
    ]
}

/// The six sides of the box between the lower corner `min` and the upper
/// corner `max`, as `box3_corners` gives them. `dx`, `dy` and `dz` are the
/// extents of the box along the axes, which the caller works out. Each
/// side is a parallelogram: a corner of the box and two of its edges.
pub fn box3(min: &Point3, max: &Point3, dx: Scalar, dy: Scalar, dz: Scalar) -> (sides: Vec<Side>)
    ensures
        sides@ == spec_box3(*min, *max, dx, dy, dz),
{
    let zero = Scalar::zero();
    let vx = Vec3::new(dx, zero, zero);
    let vy = Vec3::new(zero, dy, zero);
    let vz = Vec3::new(zero, zero, dz);
    let mut sides: Vec<Side> = Vec::with_capacity(6);
    sides.push(Side { corner: Point3::new(min.x, min.y, max.z), u: vx, v: vy });
    sides.push(Side { corner: Point3::new(max.x, min.y, max.z), u: vz.neg(), v: vy });
    sides.push(Side { corner: Point3::new(max.x, min.y, min.z), u: vx.neg(), v: vy });
    sides.push(Side { corner: Point3::new(min.x, min.y, min.z), u: vz, v: vy });
    sides.push(Side { corner: Point3::new(min.x, max.y, max.z), u: vx, v: vz.neg() });
    sides.push(Side { corner: Point3::new(min.x, min.y, min.z), u: vx, v: vz });
    proof {
        assert(sides@ =~= spec_box3(*min, *max, dx, dy, dz));
    }
    sides
}

impl Sphere {
    /// The root at which a ray meets a ball: none where `discriminant` is
    /// below zero; else `near` if it lies inside `ray_t`, else `far` if it
    /// does, else none. The ends of `ray_t` are not inside it.
    pub open spec fn spec_root(
        ray_t: Interval,
        discriminant: Scalar,
        near: Scalar,
        far: Scalar,
    ) -> Option<Scalar> {
        if discriminant.ord() < 0 {
            None
        } else if ray_t.spec_surrounds(near) {
            Some(near)
        } else if ray_t.spec_surrounds(far) {
            Some(far)
        } else {
            None
        }
    }

    /// A ball whose centre starts at the origin of `center` and moves by
    /// its direction until time one. `low0` and `high0` are the centre at
    /// time zero with the radius taken off and added on each axis, `low1`
    /// and `high1` the same at time one. The box of the ball is the box
    /// around both, with no range narrower than a ten thousandth; `widen`
    /// is as for [`BoundingBox3::new`].
    pub fn new<F: Fn(Interval) -> Widening>(
        center: Ray3,
        radius: Scalar,
        material: usize,
        low0: &Point3,
        high0: &Point3,
        low1: &Point3,
        high1: &Point3,
        widen: &F,
    ) -> (r: Sphere)
        requires
            radius.ord() >= 0,
            forall|range: Interval| call_requires(widen, (range,)),
        ensures
            r.center == center,
            r.radius == radius,
            r.material == material,
            forall|model: spec_fn(Interval) -> Widening|
                widen_refines(widen, model) ==> r.bounding_box == #[trigger] spec_sphere_box(
                    *low0,
                    *high0,
                    *low1,
                    *high1,
                    model,
                ),
    {
        let box0 = BoundingBox3::bounded_by(low0, high0, widen);
        let box1 = BoundingBox3::bounded_by(low1, high1, widen);
        Sphere {
            center,
            radius,
            material,
            bounding_box: BoundingBox3::extending(&box0, &box1, widen),
        }
    }

    /// A ball that does not move. `low` and `high` are the centre with the
    /// radius taken off and added on each axis; `widen` is as for
    /// [`BoundingBox3::new`].
    pub fn stationary<F: Fn(Interval) -> Widening>(
        center: Point3,
        radius: Scalar,
        material: usize,
        low: &Point3,
        high: &Point3,
        widen: &F,
    ) -> (r: Sphere)
        requires
            radius.ord() >= 0,
            forall|range: Interval| call_requires(widen, (range,)),
        ensures
            r.center.origin == center,
            r.center.direction.x.bits == 0,
            r.center.direction.y.bits == 0,
            r.center.direction.z.bits == 0,
            r.radius == radius,
            r.material == material,
            forall|model: spec_fn(Interval) -> Widening|
                widen_refines(widen, model) ==> r.bounding_box == #[trigger] spec_sphere_box(
                    *low,
                    *high,
                    *low,
                    *high,
                    model,
                ),
    {
        Self::new(Ray3::new(center, Vec3::empty()), radius, material, low, high, low, high, widen)
    }

    /// Where along a ray the ball is met. `discriminant` is that of the
    /// equation of the ray and the ball, `near` and `far` are its two
    /// roots. Below a discriminant of zero the ray misses the ball. Else
    /// the nearer root is taken if it lies inside `ray_t`, and the further
    /// one if only that does.
    pub fn root(ray_t: &Interval, discriminant: Scalar, near: Scalar, far: Scalar) -> (r: Option<
        Scalar,
    >)
        ensures
            r == Self::spec_root(*ray_t, discriminant, near, far),
    {
        if discriminant.ord() < 0 {
            return None;
        }
        if ray_t.surrounds(near) {
            Some(near)
        } else if ray_t.surrounds(far) {
            Some(far)
        } else {
            None
        }
    }

    /// The box around the ball.
    pub fn bounding_box(&self) -> (r: Option<&BoundingBox3>)
        ensures
            r == Some(&self.bounding_box),
    {
        Some(&self.bounding_box)
    }
}

/// The root that `Sphere::root` returns is a root inside the range, and the
/// smaller of the two roots that lie inside it.
pub proof fn lemma_root_is_nearest(ray_t: Interval, discriminant: Scalar, near: Scalar, far: Scalar)
    requires
        near.ord() <= far.ord(),
    ensures
        match Sphere::spec_root(ray_t, discriminant, near, far) {
            Some(root) => {
                &&& discriminant.ord() >= 0
                &&& root == near || root == far
                &&& ray_t.spec_surrounds(root)
                &&& ray_t.spec_surrounds(near) ==> root.ord() <= near.ord()
                &&& ray_t.spec_surrounds(far) ==> root.ord() <= far.ord()
            },
            None => discriminant.ord() < 0 || (!ray_t.spec_surrounds(near) && !ray_t.spec_surrounds(
                far,
            )),
        },
{
}

/// The root that `Sphere::root` returns does not change when the end of the
/// range moves nearer, as long as the root stays inside: a root on the
/// shorter range is the root on the longer one, and a root on the longer
/// range that lies before the new end is the root on the shorter one. No
/// root lies at or beyond the end of its range.
pub proof fn lemma_root_is_stable(
    ray_t: Interval,
    end: Scalar,
    discriminant: Scalar,
    near: Scalar,
    far: Scalar,
)
    requires
        near.ord() <= far.ord(),
        end.ord() <= ray_t.end.ord(),
    ensures
        Sphere::spec_root(ray_t, discriminant, near, far) matches Some(root) ==> root.ord()
            < ray_t.end.ord(),
        Sphere::spec_root(upto(ray_t, end), discriminant, near, far) is Some ==> Sphere::spec_root(
            ray_t,
            discriminant,
            near,
            far,
        ) == Sphere::spec_root(upto(ray_t, end), discriminant, near, far),
        Sphere::spec_root(ray_t, discriminant, near, far) matches Some(root) && root.ord()
            < end.ord() ==> Sphere::spec_root(upto(ray_t, end), discriminant, near, far)
            == Sphere::spec_root(ray_t, discriminant, near, far),
{
}

/// Whether a plane is hit does not change when the end of the range moves
/// nearer, as long as the hit stays inside: a hit on the shorter range is a
/// hit on the longer one, and a hit on the longer range that lies before
/// the new end is a hit on the shorter one. No hit lies beyond the end of
/// its range.
pub proof fn lemma_plane_hit_is_stable(ray_t: Interval, end: Scalar, denominator: Scalar, t: Scalar)
    requires
        end.ord() <= ray_t.end.ord(),
    ensures
        spec_plane_hit(ray_t, denominator, t) ==> t.ord() <= ray_t.end.ord(),
        spec_plane_hit(upto(ray_t, end), denominator, t) ==> spec_plane_hit(ray_t, denominator, t),
        spec_plane_hit(ray_t, denominator, t) && t.ord() < end.ord() ==> spec_plane_hit(
            upto(ray_t, end),
            denominator,
            t,
        ),
{
}

impl Planar {
    /// What the flat primitives share, with the box around the
    /// parallelogram that the two edges span. `w`, `d` and `normal` are
    /// worked out of the corner and the edges by the caller, and so are the
    /// three other corners: `across` from the corner, and `along_u` and
    /// `along_v` at the ends of the edges. No range of the box is narrower
    /// than a ten thousandth, so that a parallelogram along two axes has a
    /// box with some depth; `widen` is as for [`BoundingBox3::new`].
    pub fn new<F: Fn(Interval) -> Widening>(
        corner: Point3,
        u: Vec3,
        v: Vec3,
        w: Vec3,
        d: Scalar,
        normal: Vec3<Normalized>,
        material: usize,
        across: &Point3,
        along_u: &Point3,
        along_v: &Point3,
        widen: &F,
    ) -> (r: Planar)
        requires
            forall|range: Interval| call_requires(widen, (range,)),
        ensures
            r.corner == corner,
            r.u == u,
            r.v == v,
            r.w == w,
            r.d == d,
            r.normal == normal,
            r.material == material,
            forall|model: spec_fn(Interval) -> Widening|
                widen_refines(widen, model) ==> r.bounding_box == #[trigger] spec_planar_box(
                    corner,
                    *across,
                    *along_u,
                    *along_v,
                    model,
                ),
    {
        let diag_1 = BoundingBox3::bounded_by(&corner, across, widen);
        let diag_2 = BoundingBox3::bounded_by(along_u, along_v, widen);
        Planar {
            corner,
            u,
            v,
            w,
            d,
            normal,
            material,
            bounding_box: BoundingBox3::extending(&diag_1, &diag_2, widen),
        }
    }
}

impl Parallelogram {
    /// Whether the point with the plane coordinates `a` and `b` lies in
    /// the parallelogram: whether both lie between zero and one.
    pub open spec fn spec_is_interior(a: Scalar, b: Scalar) -> Option<(Scalar, Scalar)> {
        if 0 <= a.ord() <= ONE_ORD && 0 <= b.ord() <= ONE_ORD {
            Some((a, b))
        } else {
            None
        }
    }

    /// The parallelogram on `plane` with the area given.
    pub fn new(plane: Planar, area: Scalar) -> (r: Parallelogram)
        ensures
            r.plane == plane,
            r.area == area,
    {
        Parallelogram { plane, area }
    }

    /// The texture coordinates of the point of the plane with the
    /// coordinates `a` along the first edge and `b` along the second, if
    /// the point lies in the parallelogram: the two coordinates
    /// themselves, where both lie between zero and one.
    pub fn is_interior(&self, a: Scalar, b: Scalar) -> (r: Option<(Scalar, Scalar)>)
        ensures
            r == Self::spec_is_interior(a, b),
    {
        let range = Interval::new(Scalar::zero(), Scalar::one());
        if !range.contains(a) || !range.contains(b) {
            return None;
        }
        Some((a, b))
    }

    /// The box around the parallelogram.
    pub fn bounding_box(&self) -> (r: Option<&BoundingBox3>)
        ensures
            r == Some(&self.plane.bounding_box),
    {
        Some(&self.plane.bounding_box)
    }
}

impl Triangle {
    /// Whether the point with the plane coordinates `a` and `b`, whose sum
    /// is `sum`, lies in the triangle: whether neither is below zero and
    /// the sum is not above one.
    pub open spec fn spec_is_interior(a: Scalar, b: Scalar, sum: Scalar) -> Option<
        (Scalar, Scalar),
    > {
        if a.ord() < 0 || b.ord() < 0 || sum.ord() > ONE_ORD {
            None
        } else {
            Some((a, b))
        }
    }

    /// The triangle on `plane`.
    pub fn new(plane: Planar) -> (r: Triangle)
        ensures
            r.plane == plane,
    {
        Triangle { plane }
    }

    /// The texture coordinates of the point of the plane with the
    /// coordinates `a` and `b`, if the point lies in the triangle. `sum` is
    /// the sum of the two, which the caller works out. The point lies in
    /// the triangle where neither coordinate is below zero and their sum
    /// is not above one.
    pub fn is_interior(&self, a: Scalar, b: Scalar, sum: Scalar) -> (r: Option<(Scalar, Scalar)>)
        ensures
            r == Self::spec_is_interior(a, b, sum),
    {
        if a.ord() < 0 || b.ord() < 0 || sum.ord() > ONE_ORD {
            return None;
        }
        Some((a, b))
    }

    /// The box around the triangle.
    pub fn bounding_box(&self) -> (r: Option<&BoundingBox3>)
        ensures
            r == Some(&self.plane.bounding_box),
    {
        Some(&self.plane.bounding_box)
    }
}

impl Disc {
    /// Whether the point with the plane coordinates `a` and `b`, which
    /// lies `distance` from the middle of the parallelogram, lies in the
    /// ellipse: whether neither is below zero and the distance is not
    /// above a half.
    pub open spec fn spec_is_interior(a: Scalar, b: Scalar, distance: Scalar) -> Option<
        (Scalar, Scalar),
    > {
        if a.ord() < 0 || b.ord() < 0 || distance.ord() > HALF_ORD {
            None
        } else {
            Some((a, b))
        }
    }

    /// The ellipse on `plane`.
    pub fn new(plane: Planar) -> (r: Disc)
        ensures
            r.plane == plane,
    {
        Disc { plane }
    }

    /// The texture coordinates of the point of the plane with the
    /// coordinates `a` and `b`, if the point lies in the ellipse.
    /// `distance` is how far the point lies from the point with the
    /// coordinates a half and a half, which the caller works out. The
    /// point lies in the ellipse where neither coordinate is below zero and
    /// the distance is not above a half.
    pub fn is_interior(&self, a: Scalar, b: Scalar, distance: Scalar) -> (r: Option<
        (Scalar, Scalar),
    >)
        ensures
            r == Self::spec_is_interior(a, b, distance),
    {
        if a.ord() < 0 || b.ord() < 0 || distance.ord() > HALF_ORD {
            return None;
        }
        Some((a, b))
    }

    /// The box around the ellipse.
    pub fn bounding_box(&self) -> (r: Option<&BoundingBox3>)
        ensures
            r == Some(&self.plane.bounding_box),
    {
        Some(&self.plane.bounding_box)
    }
}

impl Translate {
    /// The primitive with handle `object`, moved by `offset`. `shifted` is
    /// the box of the primitive moved by the same offset, which the caller
    /// works out; the box of the moved primitive is that box with no range
    /// narrower than a ten thousandth. `widen` is as for
    /// [`BoundingBox3::new`].
    pub fn new<F: Fn(Interval) -> Widening>(
        object: usize,
        offset: Vec3,
        shifted: BoundingBox3,
        widen: &F,
    ) -> (r: Translate)
        requires
            forall|range: Interval| call_requires(widen, (range,)),
        ensures
            r.object == object,
            r.offset == offset,
            shifted.padded_by(widen, r.bounding_box),
            forall|model: spec_fn(Interval) -> Widening|
                widen_refines(widen, model) ==> r.bounding_box
                    == #[trigger] BoundingBox3::spec_new(shifted.x, shifted.y, shifted.z, model),
    {
        Translate {
            object,
            offset,
            bounding_box: BoundingBox3::new(shifted.x, shifted.y, shifted.z, widen),
        }
    }

    /// The box around the moved primitive.
    pub fn bounding_box(&self) -> (r: Option<&BoundingBox3>)
        ensures
            r == Some(&self.bounding_box),
    {
        Some(&self.bounding_box)
    }
}

/// The lowest coordinates among the first `n` points, starting from
/// positive infinity on each axis.
pub open spec fn lowest(points: Seq<Point3>, n: int) -> Point3
    decreases n,
{
    if n <= 0 {
        Point3 {
            x: Scalar { bits: crate::math::scalar::INFINITY_BITS },
            y: Scalar { bits: crate::math::scalar::INFINITY_BITS },
            z: Scalar { bits: crate::math::scalar::INFINITY_BITS },
        }
    } else {
        let before = lowest(points, n - 1);
        Point3 {
            x: before.x.spec_min(points[n - 1].x),
            y: before.y.spec_min(points[n - 1].y),
            z: before.z.spec_min(points[n - 1].z),
        }
    }
}

/// The highest coordinates among the first `n` points, starting from
/// negative infinity on each axis.
pub open spec fn highest(points: Seq<Point3>, n: int) -> Point3
    decreases n,
{
    if n <= 0 {
        Point3 {
            x: Scalar { bits: crate::math::scalar::NEG_INFINITY_BITS },
            y: Scalar { bits: crate::math::scalar::NEG_INFINITY_BITS },
            z: Scalar { bits: crate::math::scalar::NEG_INFINITY_BITS },
        }
    } else {
        let before = highest(points, n - 1);
        Point3 {
            x: before.x.spec_max(points[n - 1].x),
            y: before.y.spec_max(points[n - 1].y),
            z: before.z.spec_max(points[n - 1].z),
        }
    }
}

impl RotateY {
    /// The primitive with handle `object`, turned about the Y axis by the
    /// angle with the sine and the cosine given. `corners` are the corners
    /// of the box of the primitive after the turn, which the caller works
    /// out; the box of the turned primitive is the box between the lowest
    /// and the highest of their coordinates, with no range narrower than a
    /// ten thousandth. `widen` is as for [`BoundingBox3::new`].
    pub fn new<F: Fn(Interval) -> Widening>(
        object: usize,
        sin_theta: Scalar,
        cos_theta: Scalar,
        corners: &Vec<Point3>,
        widen: &F,
    ) -> (r: RotateY)
        requires
            forall|range: Interval| call_requires(widen, (range,)),
        ensures
            r.object == object,
            r.sin_theta == sin_theta,
            r.cos_theta == cos_theta,
            forall|model: spec_fn(Interval) -> Widening|
                widen_refines(widen, model) ==> r.bounding_box
                    == #[trigger] BoundingBox3::spec_bounded_by(
                    lowest(corners@, corners@.len() as int),
                    highest(corners@, corners@.len() as int),
                    model,
                ),
    {
        let mut min = Point3::new(Scalar::infinity(), Scalar::infinity(), Scalar::infinity());
        let mut max = Point3::new(
            Scalar::neg_infinity(),
            Scalar::neg_infinity(),
            Scalar::neg_infinity(),
        );
        let mut k: usize = 0;
        while k < corners.len()
            invariant
                0 <= k <= corners@.len(),
                forall|range: Interval| call_requires(widen, (range,)),
                min == lowest(corners@, k as int),
                max == highest(corners@, k as int),
            decreases corners@.len() - k,
        {
            let tester = corners[k];
            min = Point3::new(min.x.min(tester.x), min.y.min(tester.y), min.z.min(tester.z));
            max = Point3::new(max.x.max(tester.x), max.y.max(tester.y), max.z.max(tester.z));
            k = k + 1;
        }
        RotateY {
            object,
            sin_theta,
            cos_theta,
            bounding_box: BoundingBox3::bounded_by(&min, &max, widen),
        }
    }

    /// The box around the turned primitive.
    pub fn bounding_box(&self) -> (r: Option<&BoundingBox3>)
        ensures
            r == Some(&self.bounding_box),
    {
        Some(&self.bounding_box)
    }
}

impl ConstantMedium {
    /// The stretch of a ray inside the volume, where the ray enters the
    /// boundary at `entry` and leaves it at `exit`: the two cut to `ray_t`,
    /// none where nothing is left between them, and the start raised to
    /// zero where it lies below.
    pub open spec fn spec_span(ray_t: Interval, entry: Scalar, exit: Scalar) -> Option<
        (Scalar, Scalar),
    > {
        let first = if entry.ord() < ray_t.start.ord() {
            ray_t.start
        } else {
            entry
        };
        let second = if exit.ord() > ray_t.end.ord() {
            ray_t.end
        } else {
            exit
        };
        if first.ord() >= second.ord() {
            None
        } else if first.ord() < 0 {
            Some((Scalar { bits: 0 }, second))
        } else {
            Some((first, second))
        }
    }

    /// The volume inside the primitive with handle `boundary`.
    /// `inv_density` is minus one divided by the density, which the caller
    /// works out, and `phase_fn` the handle of the material that scatters
    /// a ray inside the volume.
    pub fn new(boundary: usize, inv_density: Scalar, phase_fn: usize) -> (r: ConstantMedium)
        ensures
            r.boundary == boundary,
            r.inv_density == inv_density,
            r.phase_fn == phase_fn,
    {
        ConstantMedium { boundary, inv_density, phase_fn }
    }

    /// The stretch of a ray inside the volume. The ray enters the boundary
    /// at `entry` and leaves it at `exit`. The entry is raised to the start
    /// of `ray_t` and the exit lowered to its end; where the entry then
    /// does not lie before the exit the ray misses the volume. An entry
    /// below zero is raised to zero.
    pub fn span(ray_t: &Interval, entry: Scalar, exit: Scalar) -> (r: Option<(Scalar, Scalar)>)
        ensures
            r == Self::spec_span(*ray_t, entry, exit),
    {
        let mut first = entry;
        let mut second = exit;
        if first.ord() < ray_t.start.ord() {
            first = ray_t.start;
        }
        if second.ord() > ray_t.end.ord() {
            second = ray_t.end;
        }
        if first.ord() >= second.ord() {
            return None;
        }
        if first.ord() < 0 {
            first = Scalar::zero();
        }
        Some((first, second))
    }

    /// Whether a ray is scattered inside the volume: whether the distance
    /// `hit_dist` that it goes before it is scattered is not above the
    /// distance `dist_inside_boundary` that it goes inside the boundary.
    pub fn scatters(hit_dist: Scalar, dist_inside_boundary: Scalar) -> (r: bool)
        ensures
            r <==> hit_dist.ord() <= dist_inside_boundary.ord(),
    {
        !(hit_dist.ord() > dist_inside_boundary.ord())
    }
}

/// On a range that does not start below zero, the stretch that
/// `ConstantMedium::span` returns lies in the range and between the entry
/// and the exit, and it ends after it starts.
pub proof fn lemma_span(ray_t: Interval, entry: Scalar, exit: Scalar)
    requires
        ray_t.start.ord() >= 0,
    ensures
        match ConstantMedium::spec_span(ray_t, entry, exit) {
            Some((first, second)) => {
                &&& first.ord() < second.ord()
                &&& ray_t.start.ord() <= first.ord()
                &&& second.ord() <= ray_t.end.ord()
                &&& entry.ord() <= first.ord()
                &&& second.ord() <= exit.ord()
            },
            None => true,
        },
{
}

} // verus!
