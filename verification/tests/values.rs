use robot_telemetry_server::value::Real;

fn r(x: f64) -> Real {
    Real { bits: x.to_bits() }
}

#[test]
fn finiteness_matches_f64() {
    for x in [0.0, -0.0, 1.0, -3.5, f64::MAX, f64::MIN, f64::MIN_POSITIVE, 5e-324, f64::INFINITY, f64::NEG_INFINITY, f64::NAN] {
        assert_eq!(r(x).is_finite(), x.is_finite(), "{}", x);
        assert_eq!(r(x).is_nan(), x.is_nan(), "{}", x);
    }
}

#[test]
fn comparisons_match_f64() {
    let values = [
        f64::NEG_INFINITY, -1e300, -2.5, -1.0, -5e-324, -0.0, 0.0, 5e-324, 1.0, 2.5, 1e300, f64::INFINITY, f64::NAN,
    ];
    for &a in &values {
        for &b in &values {
            assert_eq!(r(a).le(&r(b)), a <= b, "{} <= {}", a, b);
            assert_eq!(r(a).lt(&r(b)), a < b, "{} < {}", a, b);
        }
    }
}

#[test]
fn order_key_of_zeros_and_signs() {
    assert_eq!(r(0.0).key(), 0);
    assert_eq!(r(-0.0).key(), 0);
    assert!(r(-1.0).key() < 0);
    assert!(r(1.0).key() > 0);
    assert!(r(f64::INFINITY).key() > r(f64::MAX).key());
}
