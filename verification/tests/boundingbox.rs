use raytracing::axis::Axis;
use raytracing::boundingbox::{BoundingBox3, Crossing, Crossings, Extents};
use raytracing::interval::Widening;
use raytracing::math::scalar::Scalar;
use raytracing::{Interval, Point3};

fn s(x: f64) -> Scalar {
    Scalar::from_bits(x.to_bits())
}

fn range(a: f64, b: f64) -> Interval {
    Interval::new(s(a), s(b))
}

fn cube(lo: f64, hi: f64) -> BoundingBox3 {
    BoundingBox3 { x: range(lo, hi), y: range(lo, hi), z: range(lo, hi) }
}

fn boxed(x: (f64, f64), y: (f64, f64), z: (f64, f64)) -> BoundingBox3 {
    BoundingBox3 { x: range(x.0, x.1), y: range(y.0, y.1), z: range(z.0, z.1) }
}

fn point(x: f64, y: f64, z: f64) -> Point3 {
    Point3::new(s(x), s(y), s(z))
}

// The two distances at which a ray crosses the two faces of a box on one axis.
fn crossing(ax: &Interval, origin: f64, direction: f64) -> Crossing {
    let adinv = 1.0 / direction;
    let t0 = (f64::from_bits(ax.start().to_bits()) - origin) * adinv;
    let t1 = (f64::from_bits(ax.end().to_bits()) - origin) * adinv;
    Crossing { first: s(t0), second: s(t1) }
}

fn slab(bbox: &BoundingBox3, origin: [f64; 3], direction: [f64; 3], ray_t: Interval) -> bool {
    BoundingBox3::hit(
        Crossings {
            x: crossing(bbox.x(), origin[0], direction[0]),
            y: crossing(bbox.y(), origin[1], direction[1]),
            z: crossing(bbox.z(), origin[2], direction[2]),
        },
        ray_t,
    )
}

fn longest(x: f64, y: f64, z: f64) -> Axis {
    BoundingBox3::longest_axis(Extents { x: s(x), y: s(y), z: s(z) })
}

fn between(a: f64, b: f64) -> Crossing {
    Crossing { first: s(a), second: s(b) }
}

fn enters(x: Crossing, y: Crossing, z: Crossing, ray_t: Interval) -> bool {
    BoundingBox3::hit(Crossings { x, y, z }, ray_t)
}

// The width of a range, and the range with half a ten thousandth added on
// each side.
fn widen(r: Interval) -> Widening {
    let start = f64::from_bits(r.start().to_bits());
    let end = f64::from_bits(r.end().to_bits());
    let delta = 0.0001;
    Widening {
        size: Scalar::from_bits((end - start).to_bits()),
        expanded: Interval::new(
            Scalar::from_bits((start - delta / 2.0).to_bits()),
            Scalar::from_bits((end + delta / 2.0).to_bits()),
        ),
    }
}

#[test]
fn new_widens_a_flat_axis() {
    let b = BoundingBox3::new(range(0.0, 1.0), range(0.0, 1.0), range(0.0, 0.0), &widen);
    assert_eq!(*b.x(), range(0.0, 1.0));
    assert_eq!(*b.y(), range(0.0, 1.0));
    assert_eq!(*b.z(), range(-0.00005, 0.00005));
    let b = BoundingBox3::new(range(1.0, 2.0), range(3.0, 3.0), range(6.0, 6.00005), &widen);
    assert_eq!(*b.index(Axis::X), range(1.0, 2.0));
    assert_eq!(*b.index(Axis::Y), range(3.0 - 0.00005, 3.0 + 0.00005));
    assert_eq!(*b.index(Axis::Z), range(6.0 - 0.00005, 6.00005 + 0.00005));
    let wide = BoundingBox3::new(range(0.0, 0.0001), range(-1.0, 1.0), range(5.0, 9.0), &widen);
    assert_eq!(wide, boxed((0.0, 0.0001), (-1.0, 1.0), (5.0, 9.0)));
}

#[test]
fn empty_and_universe_boxes() {
    let e = BoundingBox3::empty();
    assert_eq!(*e.x(), Interval::empty());
    assert_eq!(*e.y(), Interval::empty());
    assert_eq!(*e.z(), Interval::empty());
    let u = BoundingBox3::universe();
    assert_eq!(*u.x(), Interval::universe());
    assert_eq!(*u.y(), Interval::universe());
    assert_eq!(*u.z(), Interval::universe());
}

#[test]
fn bounded_by_two_corners() {
    let b = BoundingBox3::bounded_by(&point(1.0, 5.0, -3.0), &point(-1.0, 7.0, -4.0), &widen);
    assert_eq!(b, boxed((-1.0, 1.0), (5.0, 7.0), (-4.0, -3.0)));
    let same = BoundingBox3::bounded_by(&point(-1.0, 7.0, -4.0), &point(1.0, 5.0, -3.0), &widen);
    assert_eq!(same, b);
    let flat = BoundingBox3::bounded_by(&point(0.0, 0.0, 0.0), &point(1.0, 0.0, 1.0), &widen);
    assert_eq!(flat, boxed((0.0, 1.0), (-0.00005, 0.00005), (0.0, 1.0)));
}

fn extend(a: &BoundingBox3, b: &BoundingBox3) -> BoundingBox3 {
    BoundingBox3::extending(a, b, &widen)
}

fn built(x: (f64, f64), y: (f64, f64), z: (f64, f64)) -> BoundingBox3 {
    BoundingBox3::new(range(x.0, x.1), range(y.0, y.1), range(z.0, z.1), &widen)
}

#[test]
fn extending_surrounds_both() {
    let a = boxed((0.0, 1.0), (0.0, 1.0), (0.0, 1.0));
    let b = boxed((2.0, 3.0), (-1.0, 0.5), (0.25, 0.75));
    assert_eq!(extend(&a, &b), boxed((0.0, 3.0), (-1.0, 1.0), (0.0, 1.0)));
}

#[test]
fn extending_widens_what_stays_flat() {
    let a = boxed((0.0, 1.0), (2.0, 2.0), (0.0, 0.0));
    let b = boxed((0.5, 3.0), (2.0, 2.00001), (0.0, 0.0));
    assert_eq!(
        extend(&a, &b),
        boxed((0.0, 3.0), (2.0 - 0.00005, 2.00001 + 0.00005), (-0.00005, 0.00005))
    );
}

#[test]
fn extending_opt_with_missing_boxes() {
    let a = cube(0.0, 1.0);
    let b = cube(2.0, 3.0);
    let flat = boxed((0.0, 1.0), (0.0, 1.0), (0.0, 0.0));
    assert_eq!(BoundingBox3::extending_opt(None, None, &widen), BoundingBox3::empty());
    assert_eq!(BoundingBox3::extending_opt(Some(&a), None, &widen), a);
    assert_eq!(BoundingBox3::extending_opt(None, Some(&b), &widen), b);
    assert_eq!(BoundingBox3::extending_opt(Some(&a), Some(&b), &widen), cube(0.0, 3.0));
    assert_eq!(
        BoundingBox3::extending_opt(Some(&flat), None, &widen),
        boxed((0.0, 1.0), (0.0, 1.0), (-0.00005, 0.00005))
    );
    assert_eq!(
        BoundingBox3::extending_opt(None, Some(&flat), &widen),
        boxed((0.0, 1.0), (0.0, 1.0), (-0.00005, 0.00005))
    );
}

#[test]
fn extending_is_commutative_and_associative() {
    let boxes = [
        built((0.0, 1.0), (0.0, 1.0), (0.0, 1.0)),
        built((-5.0, -4.0), (2.0, 9.0), (0.5, 0.6)),
        built((0.25, 0.5), (-100.0, 100.0), (7.0, 8.0)),
        built((0.0, 0.0), (0.0, 0.0), (0.0, 0.0)),
        built((0.0, 1.0), (0.0, 1.0), (0.0, 0.0)),
        BoundingBox3::empty(),
        BoundingBox3::universe(),
    ];
    for a in &boxes {
        for b in &boxes {
            assert_eq!(extend(a, b), extend(b, a));
            for c in &boxes {
                let left = extend(&extend(a, b), c);
                let right = extend(a, &extend(b, c));
                assert_eq!(left, right);
            }
        }
    }
}

#[test]
fn the_empty_box_changes_no_box_that_was_built() {
    let e = BoundingBox3::empty();
    let boxes = [
        built((0.0, 1.0), (-2.0, 1.0), (0.0, 0.0)),
        built((0.0, 0.0), (0.0, 0.0), (0.0, 0.0)),
        built((0.25, 0.5), (-100.0, 100.0), (7.0, 8.0)),
        BoundingBox3::universe(),
        e,
    ];
    for a in &boxes {
        assert_eq!(extend(&e, a), *a);
        assert_eq!(extend(a, &e), *a);
    }
}

#[test]
fn two_empty_boxes_extend_to_the_empty_box() {
    let e = BoundingBox3::empty();
    assert_eq!(extend(&e, &e), e);
    assert_eq!(*extend(&e, &e).x(), range(f64::INFINITY, f64::NEG_INFINITY));
    let c = cube(0.0, 1.0);
    let left = extend(&extend(&e, &e), &c);
    let right = extend(&e, &extend(&e, &c));
    assert_eq!(left, c);
    assert_eq!(right, c);
}

#[test]
fn longest_axis_of_three_extents() {
    assert_eq!(longest(3.0, 2.0, 1.0), Axis::X);
    assert_eq!(longest(1.0, 2.0, 1.5), Axis::Y);
    assert_eq!(longest(1.0, 2.0, 2.5), Axis::Z);
    assert_eq!(longest(0.5, 0.25, 2.0), Axis::Z);
}

#[test]
fn longest_axis_takes_the_earlier_of_equal_extents() {
    assert_eq!(longest(2.0, 2.0, 2.0), Axis::X);
    assert_eq!(longest(1.0, 2.0, 2.0), Axis::Y);
    assert_eq!(longest(2.0, 1.0, 2.0), Axis::X);
}

#[test]
fn longest_axis_is_x_where_no_extent_is_above_zero() {
    assert_eq!(longest(0.0, 0.0, 0.0), Axis::X);
    assert_eq!(longest(-1.0, -2.0, -0.5), Axis::X);
    let inf = f64::NEG_INFINITY;
    assert_eq!(longest(inf, inf, inf), Axis::X);
    assert_eq!(longest(-1.0, 0.0, 1e-300), Axis::Z);
}

#[test]
fn a_ray_through_the_box_hits_it() {
    let b = cube(0.0, 1.0);
    let ray_t = range(0.001, f64::INFINITY);
    assert!(slab(&b, [-1.0, 0.5, 0.5], [1.0, 0.0, 0.0], ray_t));
    assert!(slab(&b, [0.5, 0.5, 5.0], [0.0, 0.0, -1.0], ray_t));
    assert!(slab(&b, [-1.0, -1.0, -1.0], [1.0, 1.0, 1.0], ray_t));
    assert!(slab(&b, [0.5, 0.5, 0.5], [0.3, -0.2, 0.9], ray_t));
}

#[test]
fn a_ray_past_the_box_misses_it() {
    let b = cube(0.0, 1.0);
    let ray_t = range(0.001, f64::INFINITY);
    assert!(!slab(&b, [-1.0, 1.5, 0.5], [1.0, 0.0, 0.0], ray_t));
    assert!(!slab(&b, [-1.0, 0.5, 0.5], [-1.0, 0.0, 0.0], ray_t));
    assert!(!slab(&b, [-1.0, -1.0, -1.0], [1.0, 1.0, -1.0], ray_t));
}

#[test]
fn a_box_beyond_the_range_is_missed() {
    let b = cube(0.0, 1.0);
    assert!(!slab(&b, [-5.0, 0.5, 0.5], [1.0, 0.0, 0.0], range(0.001, 4.0)));
    assert!(slab(&b, [-5.0, 0.5, 0.5], [1.0, 0.0, 0.0], range(0.001, 5.5)));
    assert!(!slab(&b, [-5.0, 0.5, 0.5], [1.0, 0.0, 0.0], range(6.0, 100.0)));
    assert!(!slab(&b, [-5.0, 0.5, 0.5], [1.0, 0.0, 0.0], range(0.0, 5.0)));
}

#[test]
fn hit_takes_the_crossings_in_either_order() {
    let ray_t = range(0.0, 10.0);
    let wide = between(f64::NEG_INFINITY, f64::INFINITY);
    assert!(enters(between(1.0, 2.0), wide, wide, ray_t));
    assert!(enters(between(2.0, 1.0), wide, wide, ray_t));
    assert!(!enters(between(1.0, 2.0), between(3.0, 4.0), wide, ray_t));
    assert!(enters(between(1.0, 3.5), between(4.0, 3.0), wide, ray_t));
    assert!(!enters(between(1.0, 3.0), between(3.0, 4.0), wide, ray_t));
    assert!(!enters(wide, wide, between(11.0, 12.0), ray_t));
}
