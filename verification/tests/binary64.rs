use jord::binary64::{eq, is_nan, le, lt, position_of, ONE, ZERO};

fn b(x: f64) -> u64 {
    x.to_bits()
}

#[test]
fn constants_encode_zero_and_one() {
    assert_eq!(ZERO, 0.0f64.to_bits());
    assert_eq!(ONE, 1.0f64.to_bits());
}

#[test]
fn nan_is_detected() {
    assert!(is_nan(b(f64::NAN)));
    assert!(is_nan(b(-f64::NAN)));
    assert!(!is_nan(b(f64::INFINITY)));
    assert!(!is_nan(b(f64::NEG_INFINITY)));
    assert!(!is_nan(b(0.0)));
    assert!(!is_nan(b(-1.5)));
}

#[test]
fn equality_matches_f64() {
    let values = [
        0.0,
        -0.0,
        1.0,
        -1.0,
        0.5,
        f64::MIN_POSITIVE,
        -f64::MIN_POSITIVE,
        f64::MAX,
        f64::MIN,
        f64::INFINITY,
        f64::NEG_INFINITY,
        f64::NAN,
        1e-300,
        -3.25,
        5e-324,
    ];
    for x in values.iter() {
        for y in values.iter() {
            assert_eq!(*x == *y, eq(b(*x), b(*y)), "== on {} and {}", x, y);
            assert_eq!(*x < *y, lt(b(*x), b(*y)), "< on {} and {}", x, y);
            assert_eq!(*x <= *y, le(b(*x), b(*y)), "<= on {} and {}", x, y);
        }
    }
}

#[test]
fn zeros_share_a_position() {
    assert_eq!(position_of(b(0.0)), 0);
    assert_eq!(position_of(b(-0.0)), 0);
    assert_eq!(position_of(b(1.0)), 0x3FF0_0000_0000_0000);
    assert_eq!(position_of(b(-1.0)), -0x3FF0_0000_0000_0000);
}
