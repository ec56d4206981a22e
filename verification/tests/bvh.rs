use raytracing::boundingbox::{BoundingBox3, Crossing, Crossings, Extents};
use raytracing::bvh::{BVHNode, Child};
use raytracing::hittable::{HitRecord, HittableVec, Primitive};
use raytracing::interval::Widening;
use raytracing::math::scalar::Scalar;
use raytracing::math::vec::Vec3;
use raytracing::primitives::Sphere;
use raytracing::{Interval, Point3};

fn s(x: f64) -> Scalar {
    Scalar::from_bits(x.to_bits())
}

fn f(x: Scalar) -> f64 {
    f64::from_bits(x.to_bits())
}

fn range(a: f64, b: f64) -> Interval {
    Interval::new(s(a), s(b))
}

fn point(p: [f64; 3]) -> Point3 {
    Point3::new(s(p[0]), s(p[1]), s(p[2]))
}

fn size(i: &Interval) -> f64 {
    f(i.end()) - f(i.start())
}

fn extents(bbox: BoundingBox3) -> Extents {
    Extents { x: s(size(bbox.x())), y: s(size(bbox.y())), z: s(size(bbox.z())) }
}

fn sized(x: f64, y: f64, z: f64) -> Extents {
    Extents { x: s(x), y: s(y), z: s(z) }
}

#[derive(Clone, Copy)]
struct Ball {
    center: [f64; 3],
    radius: f64,
}

#[derive(Clone, Copy)]
struct Ray {
    origin: [f64; 3],
    direction: [f64; 3],
}

fn ball_box(ball: &Ball) -> BoundingBox3 {
    let c = ball.center;
    let r = ball.radius;
    let low = point([c[0] - r, c[1] - r, c[2] - r]);
    let high = point([c[0] + r, c[1] + r, c[2] + r]);
    Sphere::stationary(point(c), s(r), 0, &low, &high, &widen).bounding_box
}

fn dot(a: [f64; 3], b: [f64; 3]) -> f64 {
    a[0] * b[0] + a[1] * b[1] + a[2] * b[2]
}

fn hit_ball(ball: &Ball, material: usize, ray: &Ray, ray_t: Interval) -> Option<HitRecord> {
    let oc = [
        ball.center[0] - ray.origin[0],
        ball.center[1] - ray.origin[1],
        ball.center[2] - ray.origin[2],
    ];
    let a = dot(ray.direction, ray.direction);
    let h = dot(ray.direction, oc);
    let c = dot(oc, oc) - ball.radius * ball.radius;
    let discriminant = h * h - a * c;
    let sqrtd = discriminant.sqrt();
    let near = (h - sqrtd) / a;
    let far = (h + sqrtd) / a;
    let root = f(Sphere::root(&ray_t, s(discriminant), s(near), s(far))?);
    let p = [
        ray.origin[0] + ray.direction[0] * root,
        ray.origin[1] + ray.direction[1] * root,
        ray.origin[2] + ray.direction[2] * root,
    ];
    let n = [
        (p[0] - ball.center[0]) / ball.radius,
        (p[1] - ball.center[1]) / ball.radius,
        (p[2] - ball.center[2]) / ball.radius,
    ];
    let normal = Vec3::new(s(n[0]), s(n[1]), s(n[2])).assert_is_normalized();
    Some(HitRecord::from_incoming_ray(
        s(dot(ray.direction, n)),
        &point(p),
        &normal,
        s(root),
        s(0.0),
        s(0.0),
        material,
    ))
}

fn crossing(ax: &Interval, origin: f64, direction: f64) -> Crossing {
    let adinv = 1.0 / direction;
    Crossing { first: s((f(ax.start()) - origin) * adinv), second: s((f(ax.end()) - origin) * adinv) }
}

fn crossings(bbox: BoundingBox3, ray: &Ray) -> Crossings {
    Crossings {
        x: crossing(bbox.x(), ray.origin[0], ray.direction[0]),
        y: crossing(bbox.y(), ray.origin[1], ray.direction[1]),
        z: crossing(bbox.z(), ray.origin[2], ray.direction[2]),
    }
}

fn primitives(balls: &[Ball]) -> Vec<Primitive> {
    balls.iter().enumerate().map(|(id, ball)| Primitive::new(id, ball_box(ball))).collect()
}

fn tree_hit(tree: &BVHNode, balls: &[Ball], ray: &Ray, ray_t: Interval) -> Option<HitRecord> {
    tree.hit(
        ray_t,
        &|bbox: BoundingBox3| crossings(bbox, ray),
        &|p: Primitive, range: Interval| hit_ball(&balls[p.id], p.id, ray, range),
    )
}

fn list_hit(list: &HittableVec, balls: &[Ball], ray: &Ray, ray_t: Interval) -> Option<HitRecord> {
    list.hit(ray_t, &|p: Primitive, range: Interval| hit_ball(&balls[p.id], p.id, ray, range))
}

fn leaf_ids(child: &Child, out: &mut Vec<usize>) {
    match child {
        Child::Leaf(p) => out.push(p.id),
        Child::Node(node) => {
            leaf_ids(&node.left, out);
            leaf_ids(&node.right, out);
        }
    }
}

fn ids_under(node: &BVHNode) -> Vec<usize> {
    let mut out = Vec::new();
    leaf_ids(&node.left, &mut out);
    leaf_ids(&node.right, &mut out);
    out
}

fn unit_box_at(x: f64) -> BoundingBox3 {
    BoundingBox3 { x: range(x, x + 1.0), y: range(0.0, 1.0), z: range(0.0, 1.0) }
}

struct Lcg(u64);

impl Lcg {
    fn next(&mut self) -> f64 {
        self.0 = self.0.wrapping_mul(6364136223846793005).wrapping_add(1442695040888963407);
        ((self.0 >> 11) as f64) / ((1u64 << 53) as f64)
    }
}

// The width of a range, and the range with half a ten thousandth added on
// each side.
fn widen(r: Interval) -> Widening {
    let start = f64::from_bits(r.start().to_bits());
    let end = f64::from_bits(r.end().to_bits());
    let delta = 0.0001;
    Widening {
        size: Scalar::from_bits((end - start).to_bits()),
        expanded: Interval::new(
            Scalar::from_bits((start - delta / 2.0).to_bits()),
            Scalar::from_bits((end + delta / 2.0).to_bits()),
        ),
    }
}

#[test]
fn one_primitive_hangs_under_the_node_twice() {
    let p = Primitive::new(7, unit_box_at(2.0));
    let node = BVHNode::new(vec![p], &extents, &widen);
    assert!(matches!(node.left, Child::Leaf(q) if q == p));
    assert!(matches!(node.right, Child::Leaf(q) if q == p));
    assert_eq!(node.bbox, unit_box_at(2.0));
    assert_eq!(node.bounding_box(), Some(&unit_box_at(2.0)));
}

#[test]
fn two_primitives_hang_in_their_order() {
    let a = Primitive::new(0, unit_box_at(5.0));
    let b = Primitive::new(1, unit_box_at(1.0));
    let node = BVHNode::new(vec![a, b], &extents, &widen);
    assert!(matches!(node.left, Child::Leaf(q) if q == a));
    assert!(matches!(node.right, Child::Leaf(q) if q == b));
    assert_eq!(
        node.bbox,
        BoundingBox3 { x: range(1.0, 6.0), y: range(0.0, 1.0), z: range(0.0, 1.0) }
    );
}

#[test]
fn three_primitives_are_sorted_and_cut_at_the_middle() {
    let a = Primitive::new(0, unit_box_at(9.0));
    let b = Primitive::new(1, unit_box_at(1.0));
    let c = Primitive::new(2, unit_box_at(5.0));
    let node = BVHNode::new(vec![a, b, c], &extents, &widen);
    match (&node.left, &node.right) {
        (Child::Node(left), Child::Node(right)) => {
            assert!(matches!(left.left, Child::Leaf(q) if q == b));
            assert!(matches!(left.right, Child::Leaf(q) if q == b));
            assert_eq!(left.bbox, unit_box_at(1.0));
            assert!(matches!(right.left, Child::Leaf(q) if q == c));
            assert!(matches!(right.right, Child::Leaf(q) if q == a));
            assert_eq!(
                right.bbox,
                BoundingBox3 { x: range(5.0, 10.0), y: range(0.0, 1.0), z: range(0.0, 1.0) }
            );
        }
        _ => panic!("a list of three is built into two nodes"),
    }
    assert_eq!(
        node.bbox,
        BoundingBox3 { x: range(1.0, 10.0), y: range(0.0, 1.0), z: range(0.0, 1.0) }
    );
}

#[test]
fn the_list_is_sorted_along_the_axis_that_is_asked_for() {
    let tall = |x: f64, y: f64| BoundingBox3 { x: range(x, x + 1.0), y: range(y, y + 1.0), z: range(0.0, 1.0) };
    let a = Primitive::new(0, tall(0.0, 30.0));
    let b = Primitive::new(1, tall(1.0, 20.0));
    let c = Primitive::new(2, tall(2.0, 10.0));
    let d = Primitive::new(3, tall(3.0, 0.0));
    let by_x = BVHNode::new(vec![d, b, a, c], &|_: BoundingBox3| sized(1.0, 0.0, 0.0), &widen);
    assert_eq!(ids_under(&by_x), vec![0, 1, 2, 3]);
    let by_y = BVHNode::new(vec![d, b, a, c], &|_: BoundingBox3| sized(1.0, 2.0, 0.0), &widen);
    assert_eq!(ids_under(&by_y), vec![3, 2, 1, 0]);
    let by_longest = BVHNode::new(vec![d, b, a, c], &extents, &widen);
    assert_eq!(ids_under(&by_longest), vec![3, 2, 1, 0]);
    let tied = BVHNode::new(vec![d, b, a, c], &|_: BoundingBox3| sized(2.0, 2.0, 2.0), &widen);
    assert_eq!(ids_under(&tied), vec![0, 1, 2, 3]);
}

#[test]
fn every_primitive_hangs_under_the_tree() {
    for n in 1..40usize {
        let mut seed = Lcg(n as u64);
        let objects: Vec<Primitive> =
            (0..n).map(|id| Primitive::new(id, unit_box_at(seed.next() * 100.0))).collect();
        let node = BVHNode::new(objects.clone(), &extents, &widen);
        let mut ids = ids_under(&node);
        ids.sort();
        ids.dedup();
        assert_eq!(ids, (0..n).collect::<Vec<_>>());
        let mut around = BoundingBox3::empty();
        for p in &objects {
            around = BoundingBox3::extending(&around, &p.bounding_box, &widen);
        }
        assert_eq!(node.bbox, around);
    }
}

#[test]
fn a_node_is_cut_into_the_lower_half_and_the_rest() {
    let objects: Vec<Primitive> =
        (0..7).map(|id| Primitive::new(id, unit_box_at((7 - id) as f64 * 2.0))).collect();
    let node = BVHNode::new(objects, &extents, &widen);
    match (&node.left, &node.right) {
        (Child::Node(left), Child::Node(right)) => {
            let mut low = ids_under(left);
            low.dedup();
            let mut high = ids_under(right);
            high.dedup();
            assert_eq!(low, vec![6, 5, 4]);
            assert_eq!(high, vec![3, 2, 1, 0]);
        }
        _ => panic!("a list of seven is built into two nodes"),
    }
}

#[test]
fn the_tree_finds_the_nearest_ball() {
    let balls = [
        Ball { center: [0.0, 0.0, -5.0], radius: 1.0 },
        Ball { center: [0.0, 0.0, -10.0], radius: 1.0 },
        Ball { center: [0.0, 0.0, -2.5], radius: 0.5 },
        Ball { center: [3.0, 0.0, -5.0], radius: 1.0 },
    ];
    let tree = BVHNode::new(primitives(&balls), &extents, &widen);
    let ray = Ray { origin: [0.0, 0.0, 0.0], direction: [0.0, 0.0, -1.0] };
    let hit = tree_hit(&tree, &balls, &ray, range(0.001, f64::INFINITY)).unwrap();
    assert_eq!(hit.material(), 2);
    assert_eq!(f(hit.t()), 2.0);
    assert!(hit.front_face());
    assert_eq!(hit.point(), point([0.0, 0.0, -2.0]));
    let past = tree_hit(&tree, &balls, &ray, range(3.5, f64::INFINITY)).unwrap();
    assert_eq!(past.material(), 0);
    assert_eq!(f(past.t()), 4.0);
    let away = Ray { origin: [0.0, 0.0, 0.0], direction: [0.0, 1.0, 0.0] };
    assert!(tree_hit(&tree, &balls, &away, range(0.001, f64::INFINITY)).is_none());
}

#[test]
fn the_tree_finds_what_the_list_finds() {
    let mut seed = Lcg(2024);
    let sizes = (1..=48usize).chain([64, 100, 127, 128, 129, 200, 300, 500]);
    for n in sizes {
        let balls: Vec<Ball> = (0..n)
            .map(|k| Ball {
                center: [
                    (k % 8) as f64 * 3.0 + seed.next(),
                    ((k / 8) % 8) as f64 * 3.0 + seed.next(),
                    -((k / 64) as f64) * 3.0 - 10.0 - seed.next(),
                ],
                radius: 0.25 + 0.7 * seed.next(),
            })
            .collect();
        let objects = primitives(&balls);
        let mut list = HittableVec::new();
        for p in &objects {
            list.add(*p, &widen);
        }
        assert_eq!(list.len(), n);
        let tree = BVHNode::new(objects, &extents, &widen);
        let mut found = 0;
        for _ in 0..150 {
            let origin = [12.0 + seed.next(), 12.0 + seed.next(), 20.0];
            let aim = balls[(seed.next() * n as f64) as usize % n].center;
            let ray = Ray {
                origin,
                direction: [
                    aim[0] - origin[0] + (seed.next() - 0.5) * 2.0,
                    aim[1] - origin[1] + (seed.next() - 0.5) * 2.0,
                    aim[2] - origin[2],
                ],
            };
            let ray_t = range(0.001, f64::INFINITY);
            let from_tree = tree_hit(&tree, &balls, &ray, ray_t);
            let from_list = list_hit(&list, &balls, &ray, ray_t);
            assert_eq!(from_tree, from_list);
            if from_tree.is_some() {
                found += 1;
            }
        }
        assert!(found > 20);
    }
}

#[test]
fn a_sphere_in_front_of_the_camera_is_hit_at_two() {
    let balls = [Ball { center: [0.0, 0.0, 0.0], radius: 1.0 }];
    let tree = BVHNode::new(primitives(&balls), &extents, &widen);
    let ray = Ray { origin: [0.0, 0.0, 3.0], direction: [0.0, 0.0, -1.0] };
    let hit = tree_hit(&tree, &balls, &ray, range(0.001, f64::INFINITY)).unwrap();
    assert!((f(hit.t()) - 2.0).abs() < 1e-12);
    assert!(hit.front_face());
    assert_eq!(hit.normal().z(), s(1.0));
    let mut list = HittableVec::new();
    list.add(Primitive::new(0, ball_box(&balls[0])), &widen);
    assert_eq!(list_hit(&list, &balls, &ray, range(0.001, f64::INFINITY)), Some(hit));
}

fn depth_of(child: &Child) -> usize {
    match child {
        Child::Leaf(_) => 0,
        Child::Node(node) => 1 + depth_of(&node.left).max(depth_of(&node.right)),
    }
}

#[test]
fn the_tree_is_as_shallow_as_it_can_be() {
    for n in 1..200usize {
        let objects: Vec<Primitive> =
            (0..n).map(|id| Primitive::new(id, unit_box_at((id * 7 % 13) as f64))).collect();
        let node = BVHNode::new(objects, &extents, &widen);
        let depth = 1 + depth_of(&node.left).max(depth_of(&node.right));
        let mut halvings = 0;
        let mut left = n;
        while left > 1 {
            left = left - left / 2;
            halvings += 1;
        }
        assert_eq!(depth, halvings.max(1));
        assert!(n <= 1 << depth);
        assert!(n < 2 || 1 << (depth - 1) < n);
    }
}

#[test]
fn a_root_stays_when_the_range_is_cut_behind_it() {
    let near = s(2.0);
    let far = s(4.0);
    let d = s(4.0);
    for start in [0.001, 1.0, 2.0, 3.0, 4.0, 5.0] {
        for end in [1.0, 2.0, 2.5, 4.0, 4.5, 9.0, f64::INFINITY] {
            let long = Sphere::root(&range(start, end), d, near, far);
            for cut in [1.5, 2.0, 3.0, 4.0, 4.25, 8.0] {
                if cut > end {
                    continue;
                }
                let short = Sphere::root(&range(start, cut), d, near, far);
                if let Some(root) = short {
                    assert_eq!(long, Some(root));
                }
                if let Some(root) = long {
                    assert!(f(root) < end);
                    if f(root) < cut {
                        assert_eq!(short, Some(root));
                    }
                }
            }
        }
    }
}

#[test]
fn the_box_of_a_node_of_flat_primitives_has_depth() {
    let flat = |x: f64| BoundingBox3::new(range(x, x + 1.0), range(0.0, 1.0), range(0.0, 0.0), &widen);
    let objects: Vec<Primitive> = (0..5).map(|id| Primitive::new(id, flat(id as f64 * 2.0))).collect();
    let node = BVHNode::new(objects, &extents, &widen);
    assert_eq!(
        node.bbox,
        BoundingBox3 { x: range(0.0, 9.0), y: range(0.0, 1.0), z: range(-0.00005, 0.00005) }
    );
    let raw = |x: f64| BoundingBox3 { x: range(x, x + 1.0), y: range(0.0, 1.0), z: range(0.0, 0.0) };
    let objects: Vec<Primitive> = (0..2).map(|id| Primitive::new(id, raw(id as f64 * 2.0))).collect();
    let node = BVHNode::new(objects, &extents, &widen);
    assert_eq!(*node.bbox.z(), range(-0.00005, 0.00005));
}
