use rcarve::scalar::Scalar;

fn s(value: f64) -> Scalar {
    Scalar::from_bits(value.to_bits())
}

fn samples() -> Vec<f64> {
    vec![
        0.0,
        -0.0,
        1.0,
        -1.0,
        0.5,
        -0.5,
        5e-324,
        -5e-324,
        f64::MIN_POSITIVE,
        f64::MAX,
        f64::MIN,
        f64::INFINITY,
        f64::NEG_INFINITY,
        f64::NAN,
        -f64::NAN,
        2.4,
        -2.4,
        100.0,
        1e-9,
        f64::EPSILON,
    ]
}

#[test]
fn scalar_order_is_the_order_of_the_numbers() {
    for a in samples() {
        for b in samples() {
            assert_eq!(s(a).lt(s(b)), a < b, "{} < {}", a, b);
            assert_eq!(s(a).le(s(b)), a <= b, "{} <= {}", a, b);
            assert_eq!(s(a).gt(s(b)), a > b, "{} > {}", a, b);
            assert_eq!(s(a).same_as(s(b)), a == b, "{} == {}", a, b);
        }
    }
}

#[test]
fn scalar_sign_operations_are_exact() {
    for a in samples() {
        assert_eq!(s(a).neg().to_bits(), (-a).to_bits());
        assert_eq!(s(a).abs().to_bits(), a.abs().to_bits());
        assert_eq!(s(a).is_nan(), a.is_nan());
        assert_eq!(s(a).is_finite(), a.is_finite());
        assert_eq!(s(a).is_sign_negative(), a.is_sign_negative());
        assert_eq!(s(a).is_positive(), a > 0.0);
        assert_eq!(s(a).neg().neg().to_bits(), a.to_bits());
    }
}

#[test]
fn scalar_constants_are_the_numbers() {
    assert_eq!(Scalar::zero().to_bits(), 0.0f64.to_bits());
    assert_eq!(Scalar::one().to_bits(), 1.0f64.to_bits());
    assert_eq!(rcarve::types::STRAIGHT_ANGLE_BITS, 180.0f64.to_bits());
    assert_eq!(rcarve::project::DEFAULT_STOCK_SIDE_BITS, 100.0f64.to_bits());
    assert_eq!(rcarve::project::DEFAULT_STOCK_THICKNESS_BITS, 12.5f64.to_bits());
}
