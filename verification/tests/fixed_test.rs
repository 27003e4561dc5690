use rcarve::fixed::format_fixed4;
use rcarve::scalar::Scalar;

fn s(value: f64) -> Scalar {
    Scalar::from_bits(value.to_bits())
}

fn check(value: f64) {
    assert_eq!(format_fixed4(s(value)), format!("{:.4}", value), "value {:e}", value);
}

#[test]
fn fixed4_matches_std_on_simple_values() {
    for value in [0.0, 1.0, -1.0, 10.0, 100.0, 103.0, -3.0, -5.0, 0.4, 2.4, 12.5, 97.0, 0.25] {
        check(value);
    }
    assert_eq!(format_fixed4(s(103.0)), "103.0000");
    assert_eq!(format_fixed4(s(-3.0)), "-3.0000");
    assert_eq!(format_fixed4(s(-5.0)), "-5.0000");
}

#[test]
fn fixed4_rounds_half_to_even_on_the_exact_value() {
    // 0.00005 is below the tie as a binary number, 0.00015 above it.
    for value in [0.00005, 0.00015, 0.00025, 0.12345, 0.12355, 1.00005, 2.5e-5, 7.5e-5] {
        check(value);
    }
    // Exact ties: k / 2^n with a 5 in the fifth decimal.
    for value in [0.03125, 0.09375, 0.15625, 0.21875, 1.03125, 1.09375] {
        check(value / 1024.0 * 1024.0);
    }
    assert_eq!(format_fixed4(s(0.00005)), format!("{:.4}", 0.00005f64));
    // 2^-14 = 0.00006103515625 rounds up; 2^-15 rounds down to zero.
    assert_eq!(format_fixed4(s(0.00006103515625)), "0.0001");
    assert_eq!(format_fixed4(s(0.000030517578125)), "0.0000");
    // 0.00005 exactly is not representable; 1/8192 + ties:
    assert_eq!(format_fixed4(s(0.000244140625)), "0.0002");
}

#[test]
fn fixed4_writes_the_sign_of_negative_zero() {
    check(-0.0);
    check(-0.00001);
    check(-1e-300);
    assert_eq!(format_fixed4(s(-0.0)), "-0.0000");
}

#[test]
fn fixed4_writes_special_values() {
    check(f64::NAN);
    check(-f64::NAN);
    check(f64::INFINITY);
    check(f64::NEG_INFINITY);
    assert_eq!(format_fixed4(s(f64::NAN)), "NaN");
    assert_eq!(format_fixed4(s(f64::INFINITY)), "inf");
    assert_eq!(format_fixed4(s(f64::NEG_INFINITY)), "-inf");
}

#[test]
fn fixed4_writes_large_and_tiny_values_exactly() {
    for value in [
        f64::MAX,
        f64::MIN,
        f64::MIN_POSITIVE,
        5e-324,
        1e300,
        -1e300,
        1e22,
        1e23,
        9007199254740992.0,
        9007199254740993.0,
        4503599627370496.5,
        4503599627370495.5,
        123456789.123456789,
        1e15 + 0.3,
        2251799813685248.25,
        1125899906842624.125,
        0.1 + 0.2,
    ] {
        check(value);
    }
}

#[test]
fn fixed4_matches_std_on_a_sweep_of_encodings() {
    // A multiplicative walk over the encodings, both signs.
    let mut bits: u64 = 1;
    let mut count = 0;
    while bits < 0x7ff0_0000_0000_0000 {
        let value = f64::from_bits(bits);
        check(value);
        check(-value);
        bits = bits + bits / 37 + 1;
        count += 1;
    }
    assert!(count > 1000);
    // Values around the thresholds of the fourth decimal.
    let mut k: u64 = 0;
    while k < 4000 {
        let value = (k as f64) * 0.000025 + 0.0000000001;
        check(value);
        check((k as f64) / 16384.0);
        check((k as f64) / 32768.0 + 7.0);
        k += 1;
    }
}
