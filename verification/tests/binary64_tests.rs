use ring_resizer::binary64::{equal, is_finite, is_nan, is_positive, less, INFINITY_BITS, SIGN_BIT};

fn samples() -> Vec<f64> {
    vec![
        0.0,
        -0.0,
        1.0,
        -1.0,
        6.0,
        8.0,
        7.25,
        -7.25,
        0.5,
        1.0e-320,
        -1.0e-320,
        f64::MIN_POSITIVE,
        f64::MAX,
        f64::MIN,
        f64::INFINITY,
        f64::NEG_INFINITY,
        f64::NAN,
        -f64::NAN,
        f64::from_bits(0x7ff0_0000_0000_0001),
        f64::from_bits(0xffff_ffff_ffff_ffff),
    ]
}

#[test]
fn zeros_are_equal() {
    assert!(equal(0.0f64.to_bits(), (-0.0f64).to_bits()));
    assert!(!less((-0.0f64).to_bits(), 0.0f64.to_bits()));
    assert!(!less(0.0f64.to_bits(), (-0.0f64).to_bits()));
    assert!(!is_nan(0.0f64.to_bits()));
    assert!(!is_positive(0.0f64.to_bits()));
    assert!(!is_positive((-0.0f64).to_bits()));
}

#[test]
fn constants_are_the_patterns_of_negative_zero_and_infinity() {
    assert_eq!(SIGN_BIT, (-0.0f64).to_bits());
    assert_eq!(INFINITY_BITS, f64::INFINITY.to_bits());
}

#[test]
fn equal_agrees_with_the_numbers() {
    for a in samples() {
        for b in samples() {
            assert_eq!(equal(a.to_bits(), b.to_bits()), a == b, "{:?} == {:?}", a, b);
        }
    }
}

#[test]
fn less_agrees_with_the_numbers() {
    for a in samples() {
        for b in samples() {
            assert_eq!(less(a.to_bits(), b.to_bits()), a < b, "{:?} < {:?}", a, b);
        }
    }
}

#[test]
fn is_positive_agrees_with_the_numbers() {
    for a in samples() {
        assert_eq!(is_positive(a.to_bits()), a > 0.0, "{:?} > 0", a);
    }
}

#[test]
fn is_nan_agrees_with_the_numbers() {
    for a in samples() {
        assert_eq!(is_nan(a.to_bits()), a.is_nan(), "{:?}", a);
    }
}

#[test]
fn is_finite_agrees_with_the_numbers() {
    for a in samples() {
        assert_eq!(is_finite(a.to_bits()), a.is_finite(), "{:?}", a);
    }
}

#[test]
fn nan_equals_nothing() {
    let nan = f64::NAN.to_bits();
    assert!(!equal(nan, nan));
    assert!(!less(nan, 1.0f64.to_bits()));
    assert!(!less(1.0f64.to_bits(), nan));
    assert!(!is_positive(nan));
}

#[test]
fn infinity_is_positive_and_largest() {
    let inf = f64::INFINITY.to_bits();
    assert!(is_positive(inf));
    assert!(less(f64::MAX.to_bits(), inf));
    assert!(less(f64::NEG_INFINITY.to_bits(), f64::MIN.to_bits()));
}
