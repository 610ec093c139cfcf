//! Decimal text of integers and of values rounded to one decimal place.

use vstd::arithmetic::div_mod::{lemma_fundamental_div_mod, lemma_mod_bound};
use vstd::math::abs;
use vstd::prelude::*;
use vstd::string::*;

verus! {

/// The character of one decimal digit.
pub open spec fn digit_char(d: int) -> char
    recommends
        0 <= d <= 9,
{
    if d == 0 {
        '0'
    } else if d == 1 {
        '1'
    } else if d == 2 {
        '2'
    } else if d == 3 {
        '3'
    } else if d == 4 {
        '4'
    } else if d == 5 {
        '5'
    } else if d == 6 {
        '6'
    } else if d == 7 {
        '7'
    } else if d == 8 {
        '8'
    } else {
        '9'
    }
}

/// The decimal digits of a natural number, most significant first, without
/// leading zeros (zero itself is the single digit `0`).
pub open spec fn natural_text(n: nat) -> Seq<char>
    decreases n,
{
    if n < 10 {
        seq![digit_char(n as int)]
    } else {
        natural_text(n / 10).push(digit_char((n % 10) as int))
    }
}

/// The decimal text of an integer: a minus sign for negative numbers, then
/// the digits of its magnitude.
pub open spec fn integer_text(n: int) -> Seq<char> {
    if n < 0 {
        seq!['-'] + natural_text((-n) as nat)
    } else {
        natural_text(n as nat)
    }
}

/// Whether a character is a decimal digit.
pub open spec fn is_digit(c: char) -> bool {
    exists|d: int| 0 <= d <= 9 && c == #[trigger] digit_char(d)
}

/// The decimal text of a natural number is made of digits, at least one,
/// and starts with a zero only for zero itself.
pub proof fn lemma_natural_text_digits(n: nat)
    ensures
        natural_text(n).len() >= 1,
        forall|i: int| 0 <= i < natural_text(n).len() ==> is_digit(#[trigger] natural_text(n)[i]),
        n > 0 ==> natural_text(n)[0] != '0',
    decreases n,
{
    if n < 10 {
        assert(natural_text(n)[0] == digit_char(n as int));
    } else {
        lemma_natural_text_digits(n / 10);
        let head = natural_text(n / 10);
        assert(natural_text(n)[head.len() as int] == digit_char((n % 10) as int));
        assert forall|i: int| 0 <= i < natural_text(n).len() implies is_digit(
            #[trigger] natural_text(n)[i],
        ) by {
            if i < head.len() {
                assert(natural_text(n)[i] == head[i]);
            }
        }
        assert(natural_text(n)[0] == head[0]);
    }
}

/// The text of a single decimal digit.
fn digit_str(d: u64) -> (text: &'static str)
    requires
        d <= 9,
    ensures
        text@ == seq![digit_char(d as int)],
{
    proof {
        reveal_strlit("0");
        reveal_strlit("1");
        reveal_strlit("2");
        reveal_strlit("3");
        reveal_strlit("4");
        reveal_strlit("5");
        reveal_strlit("6");
        reveal_strlit("7");
        reveal_strlit("8");
        reveal_strlit("9");
    }
    let text = if d == 0 {
        "0"
    } else if d == 1 {
        "1"
    } else if d == 2 {
        "2"
    } else if d == 3 {
        "3"
    } else if d == 4 {
        "4"
    } else if d == 5 {
        "5"
    } else if d == 6 {
        "6"
    } else if d == 7 {
        "7"
    } else if d == 8 {
        "8"
    } else {
        "9"
    };
    assert(text@ =~= seq![digit_char(d as int)]);
    text
}

/// Renders a natural number in decimal.
pub fn natural_string(n: u64) -> (text: String)
    ensures
        text@ == natural_text(n as nat),
    decreases n,
{
    if n < 10 {
        String::from_str(digit_str(n))
    } else {
        let mut text = natural_string(n / 10);
        text.append(digit_str(n % 10));
        text
    }
}

/// The magnitude of a signed integer.
pub fn magnitude(n: i64) -> (m: u64)
    ensures
        m == if n < 0 { -n } else { n as int },
{
    if n >= 0 {
        n as u64
    } else {
        let above: i64 = n + 1;
        let below: u64 = (-above) as u64;
        below + 1
    }
}

/// Renders an integer in decimal, with a leading minus sign when negative.
pub fn integer_string(n: i64) -> (text: String)
    ensures
        text@ == integer_text(n as int),
{
    let digits = natural_string(magnitude(n));
    if n < 0 {
        let mut text = String::from_str("-");
        proof {
            reveal_strlit("-");
        }
        text.append(digits.as_str());
        assert(text@ =~= seq!['-'] + natural_text((-n) as nat));
        text
    } else {
        digits
    }
}

/// The whole number nearest to `n / d`; of two equally near ones, the even
/// one.
pub open spec fn round_half_even(n: nat, d: nat) -> nat
    recommends
        d > 0,
{
    let q: nat = n / d;
    let r: nat = n % d;
    if 2 * r < d || (2 * r == d && q % 2 == 0) {
        q
    } else {
        q + 1
    }
}

/// The distance between two natural numbers.
pub open spec fn distance(a: nat, b: nat) -> nat {
    if a <= b {
        (b - a) as nat
    } else {
        (a - b) as nat
    }
}

/// Rounding picks a nearest whole number: the result is at most half a step
/// away from `n / d`, and where it is exactly half a step away it is even.
pub proof fn lemma_round_half_even_nearest(n: nat, d: nat)
    requires
        d > 0,
    ensures
        2 * distance(round_half_even(n, d) * d, n) <= d,
        2 * distance(round_half_even(n, d) * d, n) == d ==> round_half_even(n, d) % 2 == 0,
{
    let q: nat = n / d;
    let r: nat = n % d;
    lemma_fundamental_div_mod(n as int, d as int);
    lemma_mod_bound(n as int, d as int);
    assert(n == d * q + r);
    assert(d * q == q * d) by (nonlinear_arith);
    assert((q + 1) * d == q * d + d) by (nonlinear_arith);
    if 2 * r == d && q % 2 != 0 {
        assert((q + 1) % 2 == 0);
    }
}

/// No other whole number is nearer to `n / d` than the rounded one.
pub proof fn lemma_round_half_even_closest(n: nat, d: nat, other: nat)
    requires
        d > 0,
    ensures
        distance(round_half_even(n, d) * d, n) <= distance(other * d, n),
{
    let q: nat = n / d;
    let r: nat = n % d;
    lemma_fundamental_div_mod(n as int, d as int);
    lemma_mod_bound(n as int, d as int);
    assert(n == d * q + r);
    assert(d * q == q * d) by (nonlinear_arith);
    assert((q + 1) * d == q * d + d) by (nonlinear_arith);
    if other <= q {
        assert(other * d <= q * d) by (nonlinear_arith)
            requires
                other <= q,
                d > 0,
        ;
    } else {
        assert(other * d >= (q + 1) * d) by (nonlinear_arith)
            requires
                other >= q + 1,
                d > 0,
        ;
    }
}

/// Rounds `|units| / per_step` to the nearest whole number, ties to even.
pub fn rounded_steps(units: i64, per_step: u64) -> (steps: u64)
    requires
        per_step > 0,
    ensures
        steps == round_half_even(abs(units as int), per_step as nat),
{
    let size: u64 = magnitude(units);
    let q: u64 = size / per_step;
    let r: u64 = size % per_step;
    let short: u64 = per_step - r;
    if r < short || (r == short && q % 2 == 0) {
        q
    } else {
        q + 1
    }
}

/// The text, with exactly one decimal place, of the value that is `units`
/// counted in steps of which `per_tenth` make one tenth. The value is rounded
/// to the nearest tenth, ties to the even tenth, and a negative value keeps
/// its minus sign even where it rounds to zero.
pub open spec fn one_decimal_text(units: int, per_tenth: nat) -> Seq<char>
    recommends
        per_tenth > 0,
{
    let tenths: nat = round_half_even(abs(units), per_tenth);
    let digits = natural_text(tenths / 10) + seq!['.', digit_char((tenths % 10) as int)];
    if units < 0 {
        seq!['-'] + digits
    } else {
        digits
    }
}

/// The text has exactly one decimal place: it ends with a point and one
/// digit, and before the point stand the digits of a whole number, after a
/// minus sign where the value is negative.
pub proof fn lemma_one_decimal_shape(units: int, per_tenth: nat)
    requires
        per_tenth > 0,
    ensures
        ({
            let text = one_decimal_text(units, per_tenth);
            let start: int = if units < 0 { 1 } else { 0 };
            &&& text.len() >= start + 3
            &&& units < 0 ==> text[0] == '-'
            &&& forall|i: int| start <= i < text.len() - 2 ==> is_digit(#[trigger] text[i])
            &&& text[text.len() - 2] == '.'
            &&& is_digit(text[text.len() - 1])
        }),
{
    let tenths: nat = round_half_even(abs(units), per_tenth);
    let whole = natural_text(tenths / 10);
    let text = one_decimal_text(units, per_tenth);
    let start: int = if units < 0 { 1 } else { 0 };
    lemma_natural_text_digits(tenths / 10);
    assert(text.len() == start + whole.len() + 2);
    assert forall|i: int| start <= i < text.len() - 2 implies is_digit(#[trigger] text[i]) by {
        assert(text[i] == whole[i - start]);
    }
    assert(text[text.len() - 1] == digit_char((tenths % 10) as int));
}

/// Renders a value with exactly one decimal place.
pub fn one_decimal_string(units: i64, per_tenth: u64) -> (text: String)
    requires
        per_tenth > 0,
    ensures
        text@ == one_decimal_text(units as int, per_tenth as nat),
{
    let tenths: u64 = rounded_steps(units, per_tenth);
    let mut text = if units < 0 {
        String::from_str("-")
    } else {
        String::new()
    };
    let whole = natural_string(tenths / 10);
    text.append(whole.as_str());
    text.append(".");
    text.append(digit_str(tenths % 10));
    proof {
        reveal_strlit("-");
        reveal_strlit(".");
        assert(text@ =~= one_decimal_text(units as int, per_tenth as nat));
    }
    text
}

} // verus!
