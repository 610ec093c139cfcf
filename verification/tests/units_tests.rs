use weather_cli::units::{
    celsius_to_fahrenheit, speed_string, temperature_string, visibility_km,
};

#[test]
fn freezing_point_in_fahrenheit() {
    assert_eq!(temperature_string(0, true), "32.0\u{b0}F");
}

#[test]
fn boiling_point_in_fahrenheit() {
    assert_eq!(temperature_string(10_000, true), "212.0\u{b0}F");
}

#[test]
fn minus_forty_is_the_same_in_both_units() {
    assert_eq!(temperature_string(-4_000, true), "-40.0\u{b0}F");
    assert_eq!(temperature_string(-4_000, false), "-40.0\u{b0}C");
}

#[test]
fn celsius_is_passed_through() {
    assert_eq!(temperature_string(0, false), "0.0\u{b0}C");
    assert_eq!(temperature_string(10_000, false), "100.0\u{b0}C");
    assert_eq!(temperature_string(1_532, false), "15.3\u{b0}C");
    assert_eq!(temperature_string(-273, false), "-2.7\u{b0}C");
}

#[test]
fn fahrenheit_counts_five_hundredths() {
    assert_eq!(celsius_to_fahrenheit(0), 16_000);
    assert_eq!(celsius_to_fahrenheit(10_000), 106_000);
    assert_eq!(celsius_to_fahrenheit(-4_000), -20_000);
    assert_eq!(celsius_to_fahrenheit(1), 16_009);
    assert_eq!(celsius_to_fahrenheit(i32::MAX), 19_327_368_823);
    assert_eq!(celsius_to_fahrenheit(i32::MIN), -19_327_336_832);
}

#[test]
fn fahrenheit_follows_the_rule_exactly() {
    let mut celsius: i32 = -10_000;
    while celsius <= 10_000 {
        let fahrenheit = celsius_to_fahrenheit(celsius);
        assert_eq!(5 * (fahrenheit - 32 * 500), 9 * (5 * celsius as i64));
        celsius += 1;
    }
}

#[test]
fn fahrenheit_rounds_the_exact_value_once() {
    // 21.35 C is 70.43 F, 15.32 C is 59.576 F.
    assert_eq!(temperature_string(2_135, true), "70.4\u{b0}F");
    assert_eq!(temperature_string(1_532, true), "59.6\u{b0}F");
    // -17.78 C is -0.004 F.
    assert_eq!(temperature_string(-1_778, true), "-0.0\u{b0}F");
    // 0.25 C is 32.45 F, a tie that goes to the even tenth.
    assert_eq!(temperature_string(25, true), "32.4\u{b0}F");
    assert_eq!(temperature_string(75, true), "33.4\u{b0}F");
}

#[test]
fn fahrenheit_agrees_with_float_arithmetic_away_from_ties() {
    let mut celsius: i32 = -9_000;
    while celsius <= 9_000 {
        let exact = 9 * celsius as i64 + 16_000;
        if exact.rem_euclid(50) != 25 {
            let value = celsius as f64 / 100.0 * 9.0 / 5.0 + 32.0;
            assert_eq!(temperature_string(celsius, true), format!("{:.1}\u{b0}F", value));
        }
        celsius += 1;
    }
}

#[test]
fn celsius_agrees_with_float_rendering_away_from_ties() {
    let mut celsius: i32 = -9_000;
    while celsius <= 9_000 {
        if celsius.rem_euclid(10) != 5 {
            let value = celsius as f64 / 100.0;
            assert_eq!(temperature_string(celsius, false), format!("{:.1}\u{b0}C", value));
        }
        celsius += 1;
    }
}

#[test]
fn temperatures_at_the_limits_of_the_machine() {
    assert_eq!(temperature_string(i32::MAX, false), "21474836.5\u{b0}C");
    assert_eq!(temperature_string(i32::MIN, false), "-21474836.5\u{b0}C");
    assert_eq!(temperature_string(i32::MAX, true), "38654737.6\u{b0}F");
    assert_eq!(temperature_string(i32::MIN, true), "-38654673.7\u{b0}F");
}

#[test]
fn speed_has_one_decimal_place() {
    assert_eq!(speed_string(463), "4.6");
    assert_eq!(speed_string(720), "7.2");
    assert_eq!(speed_string(0), "0.0");
    assert_eq!(speed_string(150), "1.5");
}

#[test]
fn visibility_is_cut_off_not_rounded() {
    assert_eq!(visibility_km(10_999), 10);
    assert_eq!(visibility_km(999), 0);
    assert_eq!(visibility_km(1_000), 1);
    assert_eq!(visibility_km(10_000), 10);
    assert_eq!(visibility_km(0), 0);
}

#[test]
fn negative_visibility_is_cut_off_toward_zero() {
    assert_eq!(visibility_km(-999), 0);
    assert_eq!(visibility_km(-1_000), -1);
    assert_eq!(visibility_km(-1_999), -1);
    assert_eq!(visibility_km(i32::MIN), -2_147_483);
    assert_eq!(visibility_km(i32::MAX), 2_147_483);
}
