use raytracing::math::scalar::{
    Scalar, INFINITY_BITS, INFINITY_ORD, NEG_INFINITY_BITS, ONE_BITS, ONE_ORD, SIGN_BIT,
};

fn s(x: f64) -> Scalar {
    Scalar::from_bits(x.to_bits())
}

fn f(x: Scalar) -> f64 {
    f64::from_bits(x.to_bits())
}

#[test]
fn constants_are_the_patterns_of_their_numbers() {
    assert_eq!(ONE_BITS, 1.0_f64.to_bits());
    assert_eq!(INFINITY_BITS, f64::INFINITY.to_bits());
    assert_eq!(NEG_INFINITY_BITS, f64::NEG_INFINITY.to_bits());
    assert_eq!(SIGN_BIT, (-0.0_f64).to_bits());
    assert_eq!(ONE_ORD, s(1.0).ord());
    assert_eq!(INFINITY_ORD, s(f64::INFINITY).ord());
    assert_eq!(-INFINITY_ORD, s(f64::NEG_INFINITY).ord());
    assert_eq!(Scalar::zero(), s(0.0));
    assert_eq!(Scalar::one(), s(1.0));
    assert_eq!(Scalar::infinity(), s(f64::INFINITY));
    assert_eq!(Scalar::neg_infinity(), s(f64::NEG_INFINITY));
}

#[test]
fn bits_round_trip() {
    for x in [0.0, -0.0, 1.0, -1.0, 0.1, -2.5e300, 1e-310, f64::INFINITY, f64::NEG_INFINITY] {
        assert_eq!(s(x).to_bits(), x.to_bits());
        assert_eq!(f(s(x)).to_bits(), x.to_bits());
    }
    assert_eq!(s(f64::NAN).to_bits(), f64::NAN.to_bits());
}

#[test]
fn order_goes_up_with_the_number() {
    let ladder = [
        f64::NEG_INFINITY,
        -1e300,
        -2.5,
        -1.0,
        -1e-300,
        -5e-324,
        0.0,
        5e-324,
        1e-300,
        0.001,
        1.0,
        2.5,
        1e300,
        f64::INFINITY,
    ];
    for i in 0..ladder.len() {
        for j in 0..ladder.len() {
            assert_eq!(ladder[i] < ladder[j], s(ladder[i]).ord() < s(ladder[j]).ord());
            assert_eq!(ladder[i] == ladder[j], s(ladder[i]).same(s(ladder[j])));
        }
    }
}

#[test]
fn the_two_zeros_have_one_order() {
    assert_eq!(s(0.0).ord(), 0);
    assert_eq!(s(-0.0).ord(), 0);
    assert!(s(0.0).same(s(-0.0)));
    assert_ne!(s(0.0), s(-0.0));
}

#[test]
fn exact_orders() {
    assert_eq!(s(1.0).ord(), 0x3FF0_0000_0000_0000);
    assert_eq!(s(-1.0).ord(), -0x3FF0_0000_0000_0000);
    assert_eq!(s(2.0).ord(), 0x4000_0000_0000_0000);
    assert_eq!(s(5e-324).ord(), 1);
    assert_eq!(s(-5e-324).ord(), -1);
    assert_eq!(Scalar::from_bits(u64::MAX).ord(), -0x7FFF_FFFF_FFFF_FFFF);
}

#[test]
fn what_is_no_number_lies_outside_the_infinities() {
    let nan = s(f64::NAN);
    assert!(nan.ord() > INFINITY_ORD || nan.ord() < -INFINITY_ORD);
    assert!(Scalar::from_bits(0x7FF8_0000_0000_0000).ord() > INFINITY_ORD);
    assert!(Scalar::from_bits(0xFFF8_0000_0000_0000).ord() < -INFINITY_ORD);
}

#[test]
fn neg_changes_the_sign_only() {
    for x in [0.0, -0.0, 1.0, -1.0, 0.1, -2.5e300, f64::INFINITY, f64::NEG_INFINITY] {
        assert_eq!(f(s(x).neg()).to_bits(), (-x).to_bits());
        assert_eq!(s(x).neg().ord(), -s(x).ord());
        assert_eq!(s(x).neg().neg(), s(x));
    }
}

#[test]
fn abs_clears_the_sign() {
    for x in [0.0, -0.0, 1.0, -1.0, 0.1, -2.5e300, f64::INFINITY, f64::NEG_INFINITY] {
        assert_eq!(f(s(x).abs()).to_bits(), x.abs().to_bits());
        assert!(s(x).abs().ord() >= 0);
    }
}

#[test]
fn min_and_max_pick_one_of_the_two() {
    assert_eq!(s(1.0).min(s(2.0)), s(1.0));
    assert_eq!(s(2.0).min(s(1.0)), s(1.0));
    assert_eq!(s(1.0).max(s(2.0)), s(2.0));
    assert_eq!(s(2.0).max(s(1.0)), s(2.0));
    assert_eq!(s(-3.0).min(s(-2.0)), s(-3.0));
    assert_eq!(s(-3.0).max(s(-2.0)), s(-2.0));
    assert_eq!(s(-0.0).min(s(0.0)), s(-0.0));
    assert_eq!(s(0.0).min(s(-0.0)), s(0.0));
    assert_eq!(s(-0.0).max(s(0.0)), s(-0.0));
    assert_eq!(s(f64::NEG_INFINITY).min(s(f64::INFINITY)), s(f64::NEG_INFINITY));
}
