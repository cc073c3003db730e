use egui_gizmo::scalar::{INFINITY_BITS, ONE_BITS, SIGN_BIT};
use egui_gizmo::Scalar;

fn s(x: f64) -> Scalar {
    Scalar::from_bits(x.to_bits())
}

fn samples() -> Vec<f64> {
    vec![
        0.0,
        -0.0,
        1.0,
        -1.0,
        0.1,
        -0.1,
        2.0,
        -2.0,
        1.0e-10,
        -1.0e-10,
        f64::MIN_POSITIVE,
        -f64::MIN_POSITIVE,
        f64::from_bits(1),
        -f64::from_bits(1),
        f64::MAX,
        f64::MIN,
        f64::INFINITY,
        f64::NEG_INFINITY,
        f64::NAN,
        -f64::NAN,
        f64::from_bits(0x7ff0_0000_0000_0001),
        f64::from_bits(0xffff_ffff_ffff_ffff),
        std::f64::consts::PI,
        1.0 + f64::EPSILON,
    ]
}

#[test]
fn from_bits_and_to_bits_keep_the_pattern() {
    for x in samples() {
        assert_eq!(s(x).to_bits(), x.to_bits());
        assert_eq!(Scalar::from_bits(x.to_bits()).bits, x.to_bits());
    }
}

#[test]
fn constants_are_the_patterns_they_name() {
    assert_eq!(SIGN_BIT, (-0.0f64).to_bits());
    assert_eq!(INFINITY_BITS, f64::INFINITY.to_bits());
    assert_eq!(ONE_BITS, 1.0f64.to_bits());
}

#[test]
fn less_than_agrees_with_the_numbers() {
    for a in samples() {
        for b in samples() {
            assert_eq!(s(a).less_than(&s(b)), a < b, "{a:?} < {b:?}");
        }
    }
}

#[test]
fn at_most_agrees_with_the_numbers() {
    for a in samples() {
        for b in samples() {
            assert_eq!(s(a).at_most(&s(b)), a <= b, "{a:?} <= {b:?}");
        }
    }
}

#[test]
fn equals_agrees_with_the_numbers() {
    for a in samples() {
        for b in samples() {
            assert_eq!(s(a).equals(&s(b)), a == b, "{a:?} == {b:?}");
        }
    }
}

#[test]
fn classification_agrees_with_the_numbers() {
    for a in samples() {
        assert_eq!(s(a).is_nan(), a.is_nan(), "{a:?}");
        assert_eq!(s(a).is_zero(), a == 0.0, "{a:?}");
        assert_eq!(s(a).is_positive(), a > 0.0, "{a:?}");
        assert_eq!(s(a).is_finite(), a.is_finite(), "{a:?}");
    }
}

#[test]
fn zeros_are_equal_and_neither_is_less() {
    assert!(s(0.0).equals(&s(-0.0)));
    assert!(!s(-0.0).less_than(&s(0.0)));
    assert!(!s(0.0).less_than(&s(-0.0)));
    assert_ne!(s(0.0), s(-0.0));
}

#[test]
fn nan_is_neither_less_nor_equal() {
    let nan = s(f64::NAN);
    assert!(!nan.less_than(&s(1.0)));
    assert!(!s(1.0).less_than(&nan));
    assert!(!nan.equals(&nan));
    assert_eq!(nan, nan);
}

#[test]
fn exact_order_of_chosen_values() {
    assert!(s(-2.0).less_than(&s(-1.0)));
    assert!(s(-1.0).less_than(&s(-0.0)));
    assert!(s(0.0).less_than(&s(f64::from_bits(1))));
    assert!(s(1.0).less_than(&s(2.0)));
    assert!(s(f64::MAX).less_than(&s(f64::INFINITY)));
    assert!(s(f64::NEG_INFINITY).less_than(&s(f64::MIN)));
    assert!(!s(2.0).less_than(&s(2.0)));
}
