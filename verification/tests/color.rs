use raytracing::color::linear_to_gamma;
use raytracing::math::scalar::Scalar;
use raytracing::math::vec::Vec3;
use raytracing::Color;

fn s(x: f64) -> Scalar {
    Scalar::from_bits(x.to_bits())
}

fn color(r: f64, g: f64, b: f64) -> Color {
    Color::new(s(r), s(g), s(b))
}

#[test]
fn named_colours() {
    assert_eq!(Color::black(), color(0.0, 0.0, 0.0));
    assert_eq!(Color::white(), color(1.0, 1.0, 1.0));
    assert_eq!(Color::red(), color(1.0, 0.0, 0.0));
    assert_eq!(Color::green(), color(0.0, 1.0, 0.0));
    assert_eq!(Color::blue(), color(0.0, 0.0, 1.0));
    let c = color(0.25, 0.5, 0.75);
    assert_eq!(c.r(), s(0.25));
    assert_eq!(c.g(), s(0.5));
    assert_eq!(c.b(), s(0.75));
}

#[test]
fn hex_with_three_digits() {
    assert_eq!(Color::hex(0x0ff), [0, 240, 240]);
    assert_eq!(Color::hex(0xfff), [240, 240, 240]);
    assert_eq!(Color::hex(0x000), [0, 0, 0]);
    assert_eq!(Color::hex(0x123), [16, 32, 48]);
    assert_eq!(Color::hex(0xf00), [240, 0, 0]);
    assert_eq!(Color::hex(0x00a), [0, 0, 160]);
}

#[test]
fn hex_with_six_digits() {
    assert_eq!(Color::hex(0xff0000), [255, 0, 0]);
    assert_eq!(Color::hex(0xFFD700), [255, 215, 0]);
    assert_eq!(Color::hex(0x123456), [0x12, 0x34, 0x56]);
    assert_eq!(Color::hex(0x001000), [0, 16, 0]);
    assert_eq!(Color::hex(0x1000), [0, 16, 0]);
    assert_eq!(Color::hex(0xffffff), [255, 255, 255]);
}

#[test]
fn hex_leaves_out_what_lies_above_six_digits() {
    assert_eq!(Color::hex(0xab123456), [0x12, 0x34, 0x56]);
    assert_eq!(Color::hex(0xff000000), [0, 0, 0]);
    assert_eq!(Color::hex(u32::MAX), [255, 255, 255]);
}

#[test]
fn valid_colours_lie_between_zero_and_one() {
    assert!(Color::black().is_valid());
    assert!(Color::white().is_valid());
    assert!(color(0.5, 0.0, 1.0).is_valid());
    assert!(color(-0.0, 0.0, 1.0).is_valid());
    assert!(!color(1.0000001, 0.0, 0.0).is_valid());
    assert!(!color(0.0, -0.1, 0.0).is_valid());
    assert!(!color(0.0, 0.0, 20.0).is_valid());
    assert!(!color(f64::NAN, 0.0, 0.0).is_valid());
}

#[test]
fn clamped_moves_each_share_into_the_range() {
    assert_eq!(color(1.5, -0.5, 0.25).clamped(), color(1.0, 0.0, 0.25));
    assert_eq!(color(20.0, 20.0, 20.0).clamped(), Color::white());
    assert_eq!(color(0.0, 1.0, 0.5).clamped(), color(0.0, 1.0, 0.5));
    assert!(color(f64::INFINITY, f64::NEG_INFINITY, 0.5).clamped().is_valid());
}

#[test]
fn gamma_takes_the_root_of_shares_above_zero() {
    assert_eq!(linear_to_gamma(s(0.25), s(0.5)), s(0.5));
    assert_eq!(linear_to_gamma(s(0.0), s(0.0)), s(0.0));
    assert_eq!(linear_to_gamma(s(-4.0), s(f64::NAN)), s(0.0));
    assert_eq!(linear_to_gamma(s(-0.0), s(-0.0)), s(0.0));
    let c = color(0.25, -1.0, 4.0);
    let roots = color(0.5, f64::NAN, 2.0);
    assert_eq!(c.as_gamma_corrected(&roots), color(0.5, 0.0, 2.0));
}

#[test]
fn a_colour_from_a_vector() {
    let v = Vec3::new(s(0.5), s(0.7), s(1.0));
    assert_eq!(Color::from_vec3(&v), color(0.5, 0.7, 1.0));
    let unit = Vec3::new(s(0.0), s(1.0), s(0.0)).assert_is_normalized();
    assert_eq!(Color::from_vec3(&unit), color(0.0, 1.0, 0.0));
}

#[test]
fn a_colour_is_finished_for_the_writer() {
    let roots = |c: Color| {
        let root = |x: Scalar| s(f64::from_bits(x.to_bits()).sqrt());
        Color::new(root(c.r()), root(c.g()), root(c.b()))
    };
    let c = color(0.25, 4.0, -1.0);
    assert_eq!(c.finished(&roots(c)), color(0.5, 1.0, 0.0));
    let c = color(1.0, 0.0, 0.0625);
    assert_eq!(c.finished(&roots(c)), color(1.0, 0.0, 0.25));
    let c = color(0.81, 0.0001, 2.25);
    assert_eq!(c.finished(&roots(c)), color(0.9, 0.01, 1.0));
}
