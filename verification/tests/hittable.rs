use raytracing::boundingbox::BoundingBox3;
use raytracing::hittable::{narrowed, HitRecord, HittableVec, Primitive};
use raytracing::interval::Widening;
use raytracing::math::scalar::Scalar;
use raytracing::math::vec::Vec3;
use raytracing::{Axis, Interval, Point3};
use std::cell::RefCell;

fn s(x: f64) -> Scalar {
    Scalar::from_bits(x.to_bits())
}

fn range(a: f64, b: f64) -> Interval {
    Interval::new(s(a), s(b))
}

fn cube(lo: f64, hi: f64) -> BoundingBox3 {
    BoundingBox3 { x: range(lo, hi), y: range(lo, hi), z: range(lo, hi) }
}

fn record(t: f64, material: usize) -> HitRecord {
    HitRecord::from_incoming_ray(
        s(-1.0),
        &Point3::new(s(t), s(0.0), s(0.0)),
        &Vec3::new(s(0.0), s(1.0), s(0.0)).assert_is_normalized(),
        s(t),
        s(0.25),
        s(0.75),
        material,
    )
}

// The width of a range, and the range with half a ten thousandth added on
// each side.
fn widen(r: Interval) -> Widening {
    let start = f64::from_bits(r.start().to_bits());
    let end = f64::from_bits(r.end().to_bits());
    let delta = 0.0001;
    Widening {
        size: Scalar::from_bits((end - start).to_bits()),
        expanded: Interval::new(
            Scalar::from_bits((start - delta / 2.0).to_bits()),
            Scalar::from_bits((end + delta / 2.0).to_bits()),
        ),
    }
}

#[test]
fn a_ray_from_outside_keeps_the_normal() {
    let normal = Vec3::new(s(0.0), s(1.0), s(0.0)).assert_is_normalized();
    let point = Point3::new(s(1.0), s(2.0), s(3.0));
    let hit = HitRecord::from_incoming_ray(s(-0.5), &point, &normal, s(4.0), s(0.1), s(0.2), 9);
    assert!(hit.front_face());
    assert_eq!(hit.normal(), normal);
    assert_eq!(hit.point(), point);
    assert_eq!(hit.t(), s(4.0));
    assert_eq!(hit.u(), s(0.1));
    assert_eq!(hit.v(), s(0.2));
    assert_eq!(hit.material(), 9);
}

#[test]
fn a_ray_from_inside_turns_the_normal_round() {
    let normal = Vec3::new(s(0.0), s(1.0), s(-0.5)).assert_is_normalized();
    let point = Point3::new(s(1.0), s(2.0), s(3.0));
    let hit = HitRecord::from_incoming_ray(s(0.5), &point, &normal, s(4.0), s(0.1), s(0.2), 9);
    assert!(!hit.front_face());
    assert_eq!(hit.normal().x().to_bits(), (-0.0_f64).to_bits());
    assert_eq!(hit.normal().y(), s(-1.0));
    assert_eq!(hit.normal().z(), s(0.5));
}

#[test]
fn a_ray_along_the_surface_counts_as_from_inside() {
    let normal = Vec3::new(s(0.0), s(1.0), s(0.0)).assert_is_normalized();
    let point = Point3::origin();
    let flat = HitRecord::from_incoming_ray(s(0.0), &point, &normal, s(1.0), s(0.0), s(0.0), 0);
    assert!(!flat.front_face());
    let flat = HitRecord::from_incoming_ray(s(-0.0), &point, &normal, s(1.0), s(0.0), s(0.0), 0);
    assert!(!flat.front_face());
}

#[test]
fn set_face_normal_changes_side_and_normal_only() {
    let mut hit = record(3.0, 5);
    let outward = Vec3::new(s(1.0), s(0.0), s(0.0)).assert_is_normalized();
    hit.set_face_normal(s(2.0), &outward);
    assert!(!hit.front_face());
    assert_eq!(hit.normal().x(), s(-1.0));
    assert_eq!(hit.t(), s(3.0));
    assert_eq!(hit.material(), 5);
    assert_eq!(hit.u(), s(0.25));
    hit.set_face_normal(s(-2.0), &outward);
    assert!(hit.front_face());
    assert_eq!(hit.normal(), outward);
}

#[test]
fn narrowed_ends_at_the_hit() {
    let r = range(0.001, 100.0);
    assert_eq!(narrowed(r, &None), r);
    assert_eq!(narrowed(r, &Some(record(7.0, 0))), range(0.001, 7.0));
}

#[test]
fn start_of_a_primitive_along_an_axis() {
    let p = Primitive::new(
        3,
        BoundingBox3 { x: range(1.0, 2.0), y: range(-3.0, 4.0), z: range(5.0, 6.0) },
    );
    assert_eq!(p.start_on(Axis::X), s(1.0));
    assert_eq!(p.start_on(Axis::Y), s(-3.0));
    assert_eq!(p.start_on(Axis::Z), s(5.0));
    assert_eq!(p.start_key(Axis::X), s(1.0).ord());
    assert_eq!(p.start_key(Axis::Y), -s(3.0).ord());
}

#[test]
fn the_list_grows_and_its_box_with_it() {
    let mut list = HittableVec::new();
    assert_eq!(list.len(), 0);
    assert_eq!(list.bounding_box(), None);
    list.add(Primitive::new(0, cube(0.0, 1.0)), &widen);
    assert_eq!(list.len(), 1);
    assert_eq!(list.bounding_box(), Some(&cube(0.0, 1.0)));
    list.add(Primitive::new(1, cube(-2.0, 0.5)), &widen);
    assert_eq!(list.len(), 2);
    assert_eq!(list.bounding_box(), Some(&cube(-2.0, 1.0)));
    assert_eq!(list.objects[1].id, 1);
    let roomy = HittableVec::with_capacity(6);
    assert_eq!(roomy.len(), 0);
    assert_eq!(roomy.bounding_box(), None);
}

#[test]
fn the_empty_list_is_never_hit() {
    let list = HittableVec::new();
    let calls = RefCell::new(0);
    let hit = list.hit(range(0.0, 1.0), &|_: Primitive, _: Interval| {
        *calls.borrow_mut() += 1;
        Some(record(0.5, 0))
    });
    assert_eq!(hit, None);
    assert_eq!(*calls.borrow(), 0);
}

#[test]
fn the_list_keeps_the_last_hit_and_narrows_the_range() {
    let mut list = HittableVec::new();
    for id in 0..4 {
        list.add(Primitive::new(id, cube(0.0, 1.0)), &widen);
    }
    let distances = [9.0, 4.0, 6.0, 2.0];
    let asked = RefCell::new(Vec::new());
    let hit = list.hit(range(0.001, 100.0), &|p: Primitive, r: Interval| {
        asked.borrow_mut().push((p.id, r));
        let t = distances[p.id];
        if r.surrounds(s(t)) {
            Some(record(t, p.id))
        } else {
            None
        }
    });
    assert_eq!(hit, Some(record(2.0, 3)));
    assert_eq!(
        *asked.borrow(),
        vec![
            (0, range(0.001, 100.0)),
            (1, range(0.001, 9.0)),
            (2, range(0.001, 4.0)),
            (3, range(0.001, 4.0)),
        ]
    );
}

#[test]
fn a_list_of_a_vec_holds_it_in_order() {
    let objects = vec![
        Primitive::new(4, cube(0.0, 1.0)),
        Primitive::new(2, cube(3.0, 5.0)),
        Primitive::new(9, cube(-1.0, 0.5)),
    ];
    let list = HittableVec::from_vec(objects.clone(), &widen);
    assert_eq!(list.objects, objects);
    assert_eq!(list.bounding_box(), Some(&cube(-1.0, 5.0)));
    assert_eq!(HittableVec::from_vec(vec![], &widen).bounding_box(), None);
}

#[test]
fn the_box_of_a_list_of_flat_primitives_has_depth() {
    let flat = |x: f64| BoundingBox3 { x: range(x, x + 1.0), y: range(0.0, 1.0), z: range(2.0, 2.0) };
    let mut list = HittableVec::new();
    list.add(Primitive::new(0, flat(0.0)), &widen);
    assert_eq!(list.bounding_box(), Some(&flat(0.0)));
    list.add(Primitive::new(1, flat(3.0)), &widen);
    assert_eq!(
        list.bounding_box(),
        Some(&BoundingBox3 {
            x: range(0.0, 4.0),
            y: range(0.0, 1.0),
            z: range(2.0 - 0.00005, 2.0 + 0.00005)
        })
    );
}
