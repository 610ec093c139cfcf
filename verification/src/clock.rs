//! Local clock time of a Unix timestamp under a fixed offset from UTC.

use crate::decimal::digit_char;
use chrono::{FixedOffset, TimeZone, Utc};
use vstd::arithmetic::div_mod::{
    lemma_fundamental_div_mod, lemma_mod_bound, lemma_mod_multiples_vanish,
};
use vstd::prelude::*;

verus! {

/// Seconds in a day.
pub const SECONDS_PER_DAY: i64 = 86_400;

/// The earliest timestamp that has a calendar date: the first second of the
/// year -262143.
pub const MIN_TIMESTAMP: i64 = -8_334_601_228_800;

/// The latest timestamp that has a calendar date: the last second of the
/// year 262142.
pub const MAX_TIMESTAMP: i64 = 8_210_266_876_799;

/// The timestamps and offsets that can be rendered: the timestamp has a
/// calendar date and the offset is less than a day either way.
pub open spec fn can_format(timestamp: int, offset: int) -> bool {
    &&& MIN_TIMESTAMP <= timestamp <= MAX_TIMESTAMP
    &&& -SECONDS_PER_DAY < offset < SECONDS_PER_DAY
}

/// The second of the local day, from 0 to 86399, at which a timestamp falls
/// when local time is `offset` seconds ahead of UTC.
pub open spec fn seconds_of_day(timestamp: int, offset: int) -> int {
    (timestamp + offset) % (SECONDS_PER_DAY as int)
}

/// A number below 100 as two digits.
pub open spec fn two_digits(n: int) -> Seq<char> {
    seq![digit_char(n / 10), digit_char(n % 10)]
}

/// The 24-hour clock text `HH:MM:SS` of a second of the day.
pub open spec fn clock_text(second: int) -> Seq<char> {
    two_digits(second / 3600) + seq![':'] + two_digits((second / 60) % 60) + seq![':']
        + two_digits(second % 60)
}

/// Calls chrono: `Utc.timestamp_opt` for the instant, `FixedOffset::east_opt`
/// for the zone, `DateTime::with_timezone` and `DateTime::format` with
/// `%H:%M:%S`. Trusted: for a timestamp with a calendar date and an offset of
/// less than a day, neither constructor fails, and the text is the zero-padded
/// hour, minute and second of the instant shifted by the offset.
#[verifier::external_body]
fn chrono_clock(timestamp: i64, offset: i32) -> (text: String)
    requires
        can_format(timestamp as int, offset as int),
    ensures
        text@ == clock_text(seconds_of_day(timestamp as int, offset as int)),
{
    let instant = Utc.timestamp_opt(timestamp, 0).unwrap();
    let zone = FixedOffset::east_opt(offset).unwrap();
    instant.with_timezone(&zone).format("%H:%M:%S").to_string()
}

/// Whether a timestamp and an offset can be rendered.
pub fn is_formattable(timestamp: i64, timezone_offset: i32) -> (ok: bool)
    ensures
        ok == can_format(timestamp as int, timezone_offset as int),
{
    MIN_TIMESTAMP <= timestamp && timestamp <= MAX_TIMESTAMP && -86_400 < timezone_offset
        && timezone_offset < 86_400
}

/// Renders a Unix timestamp as local clock time `HH:MM:SS`, local time being
/// `timezone_offset` seconds ahead of UTC (behind, when negative).
pub fn format_timestamp(timestamp: i64, timezone_offset: i32) -> (text: String)
    requires
        can_format(timestamp as int, timezone_offset as int),
    ensures
        text@ == clock_text(seconds_of_day(timestamp as int, timezone_offset as int)),
{
    chrono_clock(timestamp, timezone_offset)
}

/// The second of the day is within the day.
pub proof fn lemma_seconds_of_day_bounds(timestamp: int, offset: int)
    ensures
        0 <= seconds_of_day(timestamp, offset) < SECONDS_PER_DAY,
{
    lemma_mod_bound(timestamp + offset, SECONDS_PER_DAY as int);
}

/// An offset is a plain shift of the timestamp: rendering `timestamp` under
/// `offset` is rendering `timestamp + offset` under no offset.
pub proof fn lemma_offset_is_shift(timestamp: int, offset: int)
    ensures
        seconds_of_day(timestamp, offset) == seconds_of_day(timestamp + offset, 0),
{
}

/// Whole days do not change the clock time.
pub proof fn lemma_whole_days_vanish(timestamp: int, offset: int, days: int)
    ensures
        seconds_of_day(timestamp + days * SECONDS_PER_DAY, offset) == seconds_of_day(
            timestamp,
            offset,
        ),
{
    lemma_mod_multiples_vanish(days, timestamp + offset, SECONDS_PER_DAY as int);
    assert(SECONDS_PER_DAY * days == days * SECONDS_PER_DAY) by (nonlinear_arith);
}

/// Crossing midnight wraps into the neighbouring day and never leaves the
/// range of a clock: with `utc` the second of the UTC day, the local second is
/// `utc + offset` brought back into the day by adding or taking one day.
pub proof fn lemma_wraps_at_midnight(timestamp: int, offset: int)
    requires
        -SECONDS_PER_DAY < offset < SECONDS_PER_DAY,
    ensures
        ({
            let utc = seconds_of_day(timestamp, 0);
            let local = seconds_of_day(timestamp, offset);
            if utc + offset < 0 {
                local == utc + offset + SECONDS_PER_DAY
            } else if utc + offset >= SECONDS_PER_DAY {
                local == utc + offset - SECONDS_PER_DAY
            } else {
                local == utc + offset
            }
        }),
{
    let day: int = SECONDS_PER_DAY as int;
    lemma_fundamental_div_mod(timestamp, day);
    lemma_fundamental_div_mod(timestamp + offset, day);
    lemma_mod_bound(timestamp, day);
    lemma_mod_bound(timestamp + offset, day);
    let a: int = timestamp / day;
    let b: int = (timestamp + offset) / day;
    assert(day * b - day * a == day * (b - a)) by (nonlinear_arith);
    let utc: int = timestamp % day;
    let local: int = (timestamp + offset) % day;
    assert(local - utc - offset == -(day * (b - a)));
    let k: int = b - a;
    assert(-2 < k < 2) by (nonlinear_arith)
        requires
            -2 * day < day * k < 2 * day,
            day > 0,
    ;
    assert(day * k == if k == -1 { -day } else if k == 0 { 0 } else { day }) by (nonlinear_arith)
        requires
            -2 < k < 2,
    ;
}

} // verus!
