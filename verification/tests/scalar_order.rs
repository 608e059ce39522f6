use ray_tracer::scalar::Scalar;

fn scalar(value: f64) -> Scalar {
    Scalar::from_bits(value.to_bits())
}

fn samples() -> Vec<f64> {
    vec![
        0.0,
        -0.0,
        1.0,
        -1.0,
        2.0,
        3.0,
        0.5,
        -0.5,
        1.0e-300,
        -1.0e-300,
        5.0e-324,
        -5.0e-324,
        1.5e300,
        -1.5e300,
        f64::MAX,
        f64::MIN,
        f64::MIN_POSITIVE,
        f64::EPSILON,
        f64::INFINITY,
        f64::NEG_INFINITY,
        f64::NAN,
        -f64::NAN,
        f64::from_bits(0x7ff0_0000_0000_0001),
        f64::from_bits(0xffff_ffff_ffff_ffff),
        9007199254740992.0,
        -9007199254740993.0,
        std::f64::consts::PI,
        -std::f64::consts::E,
    ]
}

#[test]
fn lt_agrees_with_the_order_of_doubles() {
    for a in samples() {
        for b in samples() {
            assert_eq!(scalar(a).lt(&scalar(b)), a < b, "{:?} < {:?}", a, b);
        }
    }
}

#[test]
fn sign_tests_agree_with_doubles() {
    for a in samples() {
        assert_eq!(scalar(a).is_positive(), a > 0.0, "{:?} > 0", a);
        assert_eq!(scalar(a).is_negative(), a < 0.0, "{:?} < 0", a);
        assert_eq!(scalar(a).is_zero(), a == 0.0, "{:?} == 0", a);
        assert_eq!(scalar(a).is_nan(), a.is_nan(), "{:?} is no number", a);
        assert_eq!(scalar(a).is_finite(), a.is_finite(), "{:?} is finite", a);
    }
}

#[test]
fn bits_round_trip() {
    for a in samples() {
        assert_eq!(scalar(a).to_bits(), a.to_bits());
    }
    assert_eq!(Scalar::from_bits(4607182418800017408).to_bits(), 4607182418800017408);
    assert_eq!(Scalar::from_bits(4607182418800017408), scalar(1.0));
}

#[test]
fn zero_is_plain_zero() {
    assert_eq!(Scalar::zero().to_bits(), 0);
    assert_eq!(f64::from_bits(Scalar::zero().to_bits()), 0.0);
    assert!(Scalar::zero().is_zero());
    assert!(!Scalar::zero().is_positive());
    assert!(!Scalar::zero().is_negative());
}

#[test]
fn both_zeros_are_equal_in_order() {
    let plus = scalar(0.0);
    let minus = scalar(-0.0);
    assert!(!plus.lt(&minus));
    assert!(!minus.lt(&plus));
    assert!(minus.is_zero());
    assert!(!minus.is_negative());
    assert_ne!(plus, minus);
}

#[test]
fn nothing_is_below_or_above_a_pattern_that_is_no_number() {
    let nan = scalar(f64::NAN);
    for a in samples() {
        assert!(!nan.lt(&scalar(a)));
        assert!(!scalar(a).lt(&nan));
    }
}

#[test]
fn infinity_is_a_number() {
    assert!(!scalar(f64::INFINITY).is_nan());
    assert!(!scalar(f64::NEG_INFINITY).is_nan());
    assert!(scalar(f64::MAX).lt(&scalar(f64::INFINITY)));
    assert!(scalar(f64::NEG_INFINITY).lt(&scalar(f64::MIN)));
    assert!(Scalar::from_bits(9218868437227405312).is_positive());
    assert!(Scalar::from_bits(9218868437227405313).is_nan());
}

#[test]
fn or_zero_lifts_negative_numbers_only() {
    assert_eq!(scalar(-0.25).or_zero(), Scalar::zero());
    assert_eq!(scalar(f64::NEG_INFINITY).or_zero(), Scalar::zero());
    assert_eq!(scalar(0.75).or_zero(), scalar(0.75));
    assert_eq!(scalar(0.0).or_zero(), scalar(0.0));
    assert_eq!(scalar(-0.0).or_zero(), scalar(-0.0));
    assert!(scalar(f64::NAN).or_zero().is_nan());
    for a in samples() {
        let lifted = f64::from_bits(scalar(a).or_zero().to_bits());
        let expected = if a < 0.0 { 0.0 } else { a };
        assert_eq!(lifted.to_bits(), expected.to_bits());
    }
}
