use bear_bridge_engine::float_bits_to_i64;

fn check(x: f64) {
    assert_eq!(float_bits_to_i64(x.to_bits()), x as i64, "converting {:e}", x);
}

#[test]
fn float_to_integer_matches_as() {
    assert_eq!(float_bits_to_i64(2.0f64.to_bits()), 2);
    assert_eq!(float_bits_to_i64((-2.9f64).to_bits()), -2);
    assert_eq!(float_bits_to_i64(0.5f64.to_bits()), 0);
    assert_eq!(float_bits_to_i64(f64::NAN.to_bits()), 0);
    assert_eq!(float_bits_to_i64(f64::INFINITY.to_bits()), i64::MAX);
    assert_eq!(float_bits_to_i64(f64::NEG_INFINITY.to_bits()), i64::MIN);
    assert_eq!(float_bits_to_i64(1e300f64.to_bits()), i64::MAX);
    assert_eq!(float_bits_to_i64((-1e300f64).to_bits()), i64::MIN);
    assert_eq!(float_bits_to_i64(123456.789f64.to_bits()), 123456);
    assert_eq!(float_bits_to_i64((-0.0f64).to_bits()), 0);
    for x in [
        0.0, 1.0, -1.0, 1.5, 1e-310, -1e-310, 4503599627370496.0, 9007199254740993.0,
        9.2e18, -9.2e18, 9.223372036854775807e18, -9.223372036854775808e18, 1e19, -1e19,
        f64::MAX, f64::MIN, f64::MIN_POSITIVE, 0.999999999, 2f64.powi(62), -(2f64.powi(63)),
        2f64.powi(63),
    ] {
        check(x);
    }
    let mut x = 1.0e-5f64;
    while x < 1.0e20 {
        check(x);
        check(-x);
        check(x * 1.37);
        x *= 3.1;
    }
}
