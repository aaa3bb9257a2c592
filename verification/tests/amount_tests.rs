use price_resolver::amount::{Amount, INFINITY_BITS, SIGN_BIT};

fn amount(value: f64) -> Amount {
    Amount::from_bits(value.to_bits())
}

fn samples() -> Vec<f64> {
    vec![
        0.0,
        -0.0,
        f64::MIN_POSITIVE,
        -f64::MIN_POSITIVE,
        5e-324,
        -5e-324,
        1.0,
        -1.0,
        1.23,
        -1.23,
        2.0,
        10.0,
        20.0,
        500.0,
        1e-12,
        1e300,
        -1e300,
        f64::MAX,
        f64::MIN,
        f64::INFINITY,
        f64::NEG_INFINITY,
        f64::NAN,
        -f64::NAN,
        f64::from_bits(0x7ff0_0000_0000_0001),
        f64::from_bits(0xfff8_0000_0000_0000),
    ]
}

#[test]
fn bits_round_trip() {
    for v in samples() {
        assert_eq!(amount(v).to_bits(), v.to_bits());
        assert_eq!(Amount::from_bits(v.to_bits()).bits, v.to_bits());
    }
    assert_eq!(SIGN_BIT, (-0.0f64).to_bits());
    assert_eq!(INFINITY_BITS, f64::INFINITY.to_bits());
}

#[test]
fn zero_is_positive_zero() {
    assert_eq!(Amount::new_zero().to_bits(), 0.0f64.to_bits());
    assert_eq!(Amount::unwrap_or_zero(None), amount(0.0));
    assert_eq!(Amount::unwrap_or_zero(Some(amount(7.5))), amount(7.5));
}

#[test]
fn nan_check_agrees_with_floats() {
    for v in samples() {
        assert_eq!(amount(v).check_nan(), v.is_nan(), "is_nan of {:?}", v);
    }
}

#[test]
fn positive_check_agrees_with_floats() {
    for v in samples() {
        assert_eq!(amount(v).check_positive(), v > 0.0, "positive of {:?}", v);
    }
    assert!(!amount(0.0).check_positive());
    assert!(!amount(-0.0).check_positive());
    assert!(!amount(f64::NAN).check_positive());
    assert!(!amount(-1.0).check_positive());
    assert!(amount(5e-324).check_positive());
    assert!(amount(f64::INFINITY).check_positive());
}

#[test]
fn exceeds_agrees_with_floats() {
    for a in samples() {
        for b in samples() {
            assert_eq!(
                amount(a).check_exceeds(&amount(b)),
                a > b,
                "{:?} > {:?}",
                a,
                b
            );
        }
    }
}

#[test]
fn exceeds_is_a_strict_order_on_samples() {
    let all = samples();
    for a in &all {
        assert!(!amount(*a).check_exceeds(&amount(*a)));
        for b in &all {
            let ab = amount(*a).check_exceeds(&amount(*b));
            let ba = amount(*b).check_exceeds(&amount(*a));
            assert!(!(ab && ba));
            for c in &all {
                if ab && amount(*b).check_exceeds(&amount(*c)) {
                    assert!(amount(*a).check_exceeds(&amount(*c)));
                }
            }
        }
    }
}

#[test]
fn zeros_do_not_exceed_each_other() {
    assert!(!amount(0.0).check_exceeds(&amount(-0.0)));
    assert!(!amount(-0.0).check_exceeds(&amount(0.0)));
    assert!(amount(5e-324).check_exceeds(&amount(-0.0)));
    assert!(amount(0.0).check_exceeds(&amount(-5e-324)));
}
