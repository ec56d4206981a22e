use raytracing::math::scalar::Scalar;
use raytracing::onb::{OrthonormalBasis, LEANING_ORD};
use raytracing::texture::{Checkerboard, ImageTexture, SolidColor};
use raytracing::math::vec::{Vec3, NEAR_ZERO_ORD, SHELL_ORD};
use raytracing::{Axis, Color, Point2, Point3};
use raytracing::Vec2;

fn s(x: f64) -> Scalar {
    Scalar::from_bits(x.to_bits())
}

#[test]
fn a_solid_colour_is_the_same_everywhere() {
    let c = Color::new(s(0.1), s(0.2), s(0.3));
    assert_eq!(SolidColor::new(c).value(), c);
}

#[test]
fn a_chessboard_takes_its_textures_in_turn() {
    let board = Checkerboard::new(s(0.5), 10, 11);
    assert_eq!(board.scale, s(0.5));
    assert_eq!(board.pick(0, 0, 0), 10);
    assert_eq!(board.pick(1, 0, 0), 11);
    assert_eq!(board.pick(1, 1, 0), 10);
    assert_eq!(board.pick(1, 1, 1), 11);
    assert_eq!(board.pick(-1, 0, 0), 11);
    assert_eq!(board.pick(-1, -1, 0), 10);
    assert_eq!(board.pick(-3, 2, 0), 11);
    assert_eq!(board.pick(i32::MAX, i32::MAX, i32::MAX), 11);
    assert_eq!(board.pick(i32::MIN, i32::MIN, 0), 10);
    assert_eq!(board.pick(i32::MAX, 1, 0), 10);
}

#[test]
fn the_bytes_of_a_pixel_of_a_picture() {
    let data: Vec<u8> = (0..18).collect();
    let picture = ImageTexture::new(data, (3, 2));
    assert_eq!(picture.width, 3);
    assert_eq!(picture.height, 2);
    assert_eq!(picture.texel(0, 0), [0, 1, 2]);
    assert_eq!(picture.texel(2, 0), [6, 7, 8]);
    assert_eq!(picture.texel(0, 1), [9, 10, 11]);
    assert_eq!(picture.texel(2, 1), [15, 16, 17]);
    assert_eq!(picture.texel(3, 0), [9, 10, 11]);
}

#[test]
fn an_axis_to_build_a_basis_from() {
    assert_eq!(LEANING_ORD, s(0.9).ord());
    let along_x = Vec3::new(s(1.0), s(0.0), s(0.0)).assert_is_normalized();
    assert_eq!(OrthonormalBasis::reference(&along_x), Vec3::new(s(0.0), s(1.0), s(0.0)));
    let against_x = Vec3::new(s(-0.95), s(0.0), s(0.3)).assert_is_normalized();
    assert_eq!(OrthonormalBasis::reference(&against_x), Vec3::new(s(0.0), s(1.0), s(0.0)));
    let along_y = Vec3::new(s(0.0), s(1.0), s(0.0)).assert_is_normalized();
    assert_eq!(OrthonormalBasis::reference(&along_y), Vec3::new(s(1.0), s(0.0), s(0.0)));
    let edge = Vec3::new(s(0.9), s(0.0), s(0.4)).assert_is_normalized();
    assert_eq!(OrthonormalBasis::reference(&edge), Vec3::new(s(1.0), s(0.0), s(0.0)));
    let basis = OrthonormalBasis::new(along_x, along_y, against_x);
    assert_eq!(basis.u(), along_x);
    assert_eq!(basis.v(), along_y);
    assert_eq!(basis.w(), against_x);
}

#[test]
fn vectors_and_their_components() {
    assert_eq!(NEAR_ZERO_ORD, s(1e-8).ord());
    assert_eq!(SHELL_ORD, s(1.0e-160).ord());
    let v = Vec3::new(s(1.0), s(-2.0), s(3.0));
    assert_eq!(v.x(), s(1.0));
    assert_eq!(v.y(), s(-2.0));
    assert_eq!(v.z(), s(3.0));
    assert_eq!(v.index(Axis::X), s(1.0));
    assert_eq!(v.index(Axis::Y), s(-2.0));
    assert_eq!(v.index(Axis::Z), s(3.0));
    assert_eq!(v.neg(), Vec3::new(s(-1.0), s(2.0), s(-3.0)));
    assert_eq!(v.neg().neg(), v);
    assert_eq!(Vec3::empty(), Vec3::new(s(0.0), s(0.0), s(0.0)));
    let unit = Vec3::new(s(0.0), s(0.0), s(1.0)).assert_is_normalized();
    assert_eq!(unit.into_unknown(), Vec3::new(s(0.0), s(0.0), s(1.0)));
    assert_eq!(unit.neg().z(), s(-1.0));
    assert_eq!(v.clone(), v);
}

#[test]
fn vectors_near_zero() {
    assert!(Vec3::empty().near_zero());
    assert!(Vec3::new(s(9e-9), s(-9e-9), s(0.0)).near_zero());
    assert!(!Vec3::new(s(1e-8), s(0.0), s(0.0)).near_zero());
    assert!(!Vec3::new(s(0.0), s(-1e-8), s(0.0)).near_zero());
    assert!(!Vec3::new(s(0.0), s(0.0), s(1.0)).near_zero());
}

#[test]
fn drawn_vectors_are_kept_inside_the_unit_ball() {
    assert!(Vec3::in_unit_sphere(s(0.5)));
    assert!(Vec3::in_unit_sphere(s(0.999999)));
    assert!(!Vec3::in_unit_sphere(s(1.0)));
    assert!(!Vec3::in_unit_sphere(s(2.5)));
    assert!(!Vec3::in_unit_sphere(s(0.0)));
    assert!(!Vec3::in_unit_sphere(s(1.0e-160)));
    assert!(Vec3::in_unit_sphere(s(1.1e-160)));
}

#[test]
fn a_vector_is_turned_to_the_side_of_the_normal() {
    let v = Vec3::new(s(0.6), s(0.0), s(0.8)).assert_is_normalized();
    assert_eq!(v.on_hemisphere(s(0.3)), v);
    assert_eq!(v.on_hemisphere(s(-0.3)), v.neg());
    assert_eq!(v.on_hemisphere(s(0.0)), v.neg());
}

#[test]
fn points_and_their_coordinates() {
    let p = Point3::new(s(1.0), s(2.0), s(3.0));
    assert_eq!(p.x(), s(1.0));
    assert_eq!(p.y(), s(2.0));
    assert_eq!(p.z(), s(3.0));
    assert_eq!(p.index(Axis::X), s(1.0));
    assert_eq!(p.index(Axis::Y), s(2.0));
    assert_eq!(p.index(Axis::Z), s(3.0));
    assert_eq!(Point3::origin(), Point3::new(s(0.0), s(0.0), s(0.0)));
    let q = Point2::new(s(0.25), s(0.75));
    assert_eq!(q.x(), s(0.25));
    assert_eq!(q.y(), s(0.75));
}

#[test]
fn vectors_of_the_plane() {
    let v = Vec2::new(s(0.5), s(-0.25));
    assert_eq!(v.x(), s(0.5));
    assert_eq!(v.y(), s(-0.25));
    assert_eq!(v.neg(), Vec2::new(s(-0.5), s(0.25)));
    assert_eq!(Vec2::empty(), Vec2::new(s(0.0), s(0.0)));
    assert!(Vec2::in_unit_circle(s(0.99)));
    assert!(Vec2::in_unit_circle(s(0.0)));
    assert!(!Vec2::in_unit_circle(s(1.0)));
    assert!(!Vec2::in_unit_circle(s(1.7)));
    assert_eq!(Point2::origin(), Point2::new(s(0.0), s(0.0)));
}

#[test]
fn the_ends_of_the_texture_coordinates_fall_on_the_last_pixels() {
    let picture = ImageTexture::new(vec![255, 0, 0, 0, 0, 255], (2, 1));
    assert_eq!(picture.value(0, 0), [255, 0, 0]);
    assert_eq!(picture.value(1, 0), [0, 0, 255]);
    assert_eq!(picture.value(2, 0), [0, 0, 255]);
    assert_eq!(picture.value(1, 1), [0, 0, 255]);
    assert_eq!(picture.value(2, 1), [0, 0, 255]);
    assert_eq!(picture.value(0, 1), [255, 0, 0]);
    let data: Vec<u8> = (0..18).collect();
    let picture = ImageTexture::new(data, (3, 2));
    assert_eq!(picture.value(0, 0), [0, 1, 2]);
    assert_eq!(picture.value(2, 1), [15, 16, 17]);
    assert_eq!(picture.value(3, 0), [6, 7, 8]);
    assert_eq!(picture.value(0, 2), [9, 10, 11]);
    assert_eq!(picture.value(3, 2), [15, 16, 17]);
    assert_eq!(picture.value(u32::MAX, u32::MAX), [15, 16, 17]);
}
