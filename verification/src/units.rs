//! Unit conversions of a weather report.
//!
//! Temperatures and speeds are exact decimals with two fractional digits,
//! held as a whole number of hundredths: `2135` is 21.35 degrees.

use crate::decimal::{one_decimal_string, one_decimal_text};
use vstd::math::abs;
use vstd::prelude::*;
use vstd::string::*;

verus! {

/// Hundredths that make one tenth of a degree.
pub const HUNDREDTHS_PER_TENTH: u64 = 10;

/// Five-hundredths that make one tenth of a degree.
pub const FIVE_HUNDREDTHS_PER_TENTH: u64 = 50;

/// Whole kilometres in a distance in metres: the quotient of the division
/// by 1000, cut off toward zero.
pub open spec fn kilometers(meters: int) -> int {
    if meters >= 0 {
        meters / 1000
    } else {
        -((-meters) / 1000)
    }
}

/// Kilometres are cut off toward zero: the whole kilometres are never more
/// than the distance, less than one kilometre short of it, and of its sign.
pub proof fn lemma_kilometers_truncate(meters: int)
    ensures
        abs(kilometers(meters) * 1000) <= abs(meters) < abs(kilometers(meters) * 1000) + 1000,
        meters >= 0 ==> kilometers(meters) >= 0,
        meters <= 0 ==> kilometers(meters) <= 0,
        kilometers(-meters) == -kilometers(meters),
{
}

/// Converts a visibility in metres to whole kilometres, without rounding.
pub fn visibility_km(meters: i32) -> (km: i32)
    ensures
        km == kilometers(meters as int),
{
    meters / 1000
}

/// A Celsius temperature in degrees Fahrenheit. The input counts hundredths
/// of a degree and the result counts five-hundredths, the finest step in
/// which every conversion is exact.
pub open spec fn fahrenheit_units(celsius: int) -> int {
    9 * celsius + 16000
}

/// The conversion is the rule `F = C * 9 / 5 + 32` without any rounding:
/// with both sides counted in five-hundredths of a degree, five times the
/// excess over 32 degrees is nine times the Celsius value.
pub proof fn lemma_fahrenheit_rule(celsius: int)
    ensures
        5 * (fahrenheit_units(celsius) - 32 * 500) == 9 * (5 * celsius),
{
}

/// Converts a Celsius temperature in hundredths of a degree to Fahrenheit in
/// five-hundredths of a degree.
pub fn celsius_to_fahrenheit(celsius: i32) -> (fahrenheit: i64)
    ensures
        fahrenheit == fahrenheit_units(celsius as int),
{
    9 * (celsius as i64) + 16000
}

/// The text of a temperature: one decimal place and the unit's suffix.
pub open spec fn temperature_text(celsius: int, use_fahrenheit: bool) -> Seq<char> {
    if use_fahrenheit {
        one_decimal_text(fahrenheit_units(celsius), FIVE_HUNDREDTHS_PER_TENTH as nat) + "°F"@
    } else {
        one_decimal_text(celsius, HUNDREDTHS_PER_TENTH as nat) + "°C"@
    }
}

/// Renders a Celsius temperature, given in hundredths of a degree, in the
/// unit asked for.
pub fn temperature_string(celsius: i32, use_fahrenheit: bool) -> (text: String)
    ensures
        text@ == temperature_text(celsius as int, use_fahrenheit),
{
    if use_fahrenheit {
        let fahrenheit: i64 = celsius_to_fahrenheit(celsius);
        let mut text = one_decimal_string(fahrenheit, FIVE_HUNDREDTHS_PER_TENTH);
        text.append("°F");
        text
    } else {
        let mut text = one_decimal_string(celsius as i64, HUNDREDTHS_PER_TENTH);
        text.append("°C");
        text
    }
}

/// The text of a speed given in hundredths of a metre per second: one
/// decimal place, no unit.
pub open spec fn speed_text(speed: int) -> Seq<char> {
    one_decimal_text(speed, HUNDREDTHS_PER_TENTH as nat)
}

/// Renders a speed given in hundredths of a metre per second.
pub fn speed_string(speed: i32) -> (text: String)
    ensures
        text@ == speed_text(speed as int),
{
    one_decimal_string(speed as i64, HUNDREDTHS_PER_TENTH)
}

} // verus!
