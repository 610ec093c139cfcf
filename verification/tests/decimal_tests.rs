use weather_cli::decimal::{
    integer_string, magnitude, natural_string, one_decimal_string, rounded_steps,
};

#[test]
fn natural_numbers_in_decimal() {
    assert_eq!(natural_string(0), "0");
    assert_eq!(natural_string(7), "7");
    assert_eq!(natural_string(10), "10");
    assert_eq!(natural_string(1012), "1012");
    assert_eq!(natural_string(u64::MAX), "18446744073709551615");
}

#[test]
fn integers_in_decimal() {
    assert_eq!(integer_string(0), "0");
    assert_eq!(integer_string(72), "72");
    assert_eq!(integer_string(-7), "-7");
    assert_eq!(integer_string(-100), "-100");
    assert_eq!(integer_string(i64::MAX), "9223372036854775807");
    assert_eq!(integer_string(i64::MIN), "-9223372036854775808");
}

#[test]
fn integers_agree_with_the_standard_rendering() {
    let mut n: i64 = -1_000_000;
    while n < 1_000_000 {
        assert_eq!(integer_string(n), n.to_string());
        n += 7_919;
    }
}

#[test]
fn magnitude_of_every_sign() {
    assert_eq!(magnitude(0), 0);
    assert_eq!(magnitude(5), 5);
    assert_eq!(magnitude(-5), 5);
    assert_eq!(magnitude(i64::MAX), 9_223_372_036_854_775_807);
    assert_eq!(magnitude(i64::MIN), 9_223_372_036_854_775_808);
}

#[test]
fn rounding_goes_to_the_nearest_step() {
    assert_eq!(rounded_steps(0, 10), 0);
    assert_eq!(rounded_steps(4, 10), 0);
    assert_eq!(rounded_steps(6, 10), 1);
    assert_eq!(rounded_steps(14, 10), 1);
    assert_eq!(rounded_steps(16, 10), 2);
    assert_eq!(rounded_steps(-16, 10), 2);
    assert_eq!(rounded_steps(1234, 1), 1234);
}

#[test]
fn rounding_sends_ties_to_the_even_step() {
    assert_eq!(rounded_steps(5, 10), 0);
    assert_eq!(rounded_steps(15, 10), 2);
    assert_eq!(rounded_steps(25, 10), 2);
    assert_eq!(rounded_steps(35, 10), 4);
    assert_eq!(rounded_steps(-25, 10), 2);
    assert_eq!(rounded_steps(25, 50), 0);
    assert_eq!(rounded_steps(75, 50), 2);
}

#[test]
fn rounding_with_an_odd_step_has_no_ties() {
    assert_eq!(rounded_steps(1, 3), 0);
    assert_eq!(rounded_steps(2, 3), 1);
    assert_eq!(rounded_steps(4, 3), 1);
    assert_eq!(rounded_steps(5, 3), 2);
}

#[test]
fn rounding_at_the_limits_of_the_machine() {
    assert_eq!(rounded_steps(i64::MIN, 1), 9_223_372_036_854_775_808);
    assert_eq!(rounded_steps(i64::MIN, u64::MAX), 1);
    assert_eq!(rounded_steps(i64::MAX, u64::MAX), 0);
    assert_eq!(rounded_steps(i64::MAX, 2), 4_611_686_018_427_387_904);
}

#[test]
fn one_decimal_place_always() {
    assert_eq!(one_decimal_string(0, 10), "0.0");
    assert_eq!(one_decimal_string(1532, 10), "15.3");
    assert_eq!(one_decimal_string(1481, 10), "14.8");
    assert_eq!(one_decimal_string(1000, 10), "10.0");
    assert_eq!(one_decimal_string(100, 10), "1.0");
    assert_eq!(one_decimal_string(99, 10), "1.0");
    assert_eq!(one_decimal_string(94, 10), "0.9");
    assert_eq!(one_decimal_string(996, 10), "10.0");
    assert_eq!(one_decimal_string(-1532, 10), "-15.3");
}

#[test]
fn one_decimal_ties_go_to_the_even_tenth() {
    assert_eq!(one_decimal_string(25, 10), "0.2");
    assert_eq!(one_decimal_string(35, 10), "0.4");
    assert_eq!(one_decimal_string(2135, 10), "21.4");
    assert_eq!(one_decimal_string(2145, 10), "21.4");
    assert_eq!(one_decimal_string(2155, 10), "21.6");
    assert_eq!(one_decimal_string(-2145, 10), "-21.4");
}

#[test]
fn a_negative_value_keeps_its_sign_when_it_rounds_to_zero() {
    assert_eq!(one_decimal_string(-4, 10), "-0.0");
    assert_eq!(one_decimal_string(-5, 10), "-0.0");
    assert_eq!(one_decimal_string(-6, 10), "-0.1");
    assert_eq!(one_decimal_string(4, 10), "0.0");
}

#[test]
fn one_decimal_agrees_with_float_rendering_of_binary_fractions() {
    // Quarters are exact in binary, so the float rendering rounds the same
    // exact value, ties included.
    let mut quarters: i64 = -4_000;
    while quarters <= 4_000 {
        let value = quarters as f64 / 4.0;
        assert_eq!(one_decimal_string(quarters * 25, 10), format!("{:.1}", value));
        quarters += 1;
    }
}
