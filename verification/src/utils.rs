//! Small numeric helpers: token-unit scaling, checked narrowing, the day
//! index of a millisecond timestamp, and a verified decimal formatter.

use vstd::prelude::*;

use crate::Day;

verus! {

/// Milliseconds in one whole day.
pub const DAY_MS: u64 = 24 * 3600 * 1000;

/// Scales a small token count to the smallest token unit (10^24 per token).
pub fn to_yocto_u8(value: u8) -> (r: u128)
    ensures
        r == value * 1_000_000_000_000_000_000_000_000u128,
{
    (value as u128) * 1_000_000_000_000_000_000_000_000u128
}

/// Narrows a 128-bit count to 16 bits, reporting the overflow instead of
/// truncating.
pub fn safe_u128_to_u16(value: u128) -> (r: Result<u16, &'static str>)
    ensures
        value <= u16::MAX ==> r == Ok::<u16, &'static str>(value as u16),
        value > u16::MAX ==> r.is_err(),
{
    if value <= u16::MAX as u128 {
        Ok(value as u16)
    } else {
        Err("Value exceeds the range of u16")
    }
}

/// The day index of a wall-clock time given in milliseconds since the epoch.
pub open spec fn day_of(now_ms: u64) -> Day {
    now_ms / DAY_MS
}

/// The day index of a wall-clock time given in milliseconds since the epoch.
pub fn get_today_day(now_ms: u64) -> (r: Day)
    ensures
        r == day_of(now_ms),
{
    now_ms / DAY_MS
}

/// The character for a single decimal digit.
pub open spec fn dec_digit_char(d: int) -> char {
    if d == 0 {
        '0'
    } else if d == 1 {
        '1'
    } else if d == 2 {
        '2'
    } else if d == 3 {
        '3'
    } else if d == 4 {
        '4'
    } else if d == 5 {
        '5'
    } else if d == 6 {
        '6'
    } else if d == 7 {
        '7'
    } else if d == 8 {
        '8'
    } else {
        '9'
    }
}

/// The decimal digits of `n`, most significant first, with no leading zeros
/// (`0` itself is the single character `'0'`).
pub open spec fn dec_digits(n: nat) -> Seq<char>
    decreases n,
{
    if n < 10 {
        seq![dec_digit_char(n as int)]
    } else {
        dec_digits(n / 10).push(dec_digit_char((n % 10) as int))
    }
}

/// Relies on std's `String::push`, which appends the given character to the
/// end of the string.
#[verifier::external_body]
fn push_char(s: &mut String, c: char)
    ensures
        final(s)@ == old(s)@.push(c),
{
    s.push(c)
}

fn digit_char(d: u128) -> (c: char)
    requires
        d < 10,
    ensures
        c == dec_digit_char(d as int),
{
    if d == 0 {
        '0'
    } else if d == 1 {
        '1'
    } else if d == 2 {
        '2'
    } else if d == 3 {
        '3'
    } else if d == 4 {
        '4'
    } else if d == 5 {
        '5'
    } else if d == 6 {
        '6'
    } else if d == 7 {
        '7'
    } else if d == 8 {
        '8'
    } else {
        '9'
    }
}

/// Renders `n` in decimal, most significant digit first.
pub fn u128_to_decimal(n: u128) -> (s: String)
    ensures
        s@ == dec_digits(n as nat),
    decreases n,
{
    if n < 10 {
        let mut s = String::new();
        push_char(&mut s, digit_char(n));
        proof {
            assert(s@ =~= seq![dec_digit_char(n as int)]);
        }
        s
    } else {
        let mut s = u128_to_decimal(n / 10);
        push_char(&mut s, digit_char(n % 10));
        s
    }
}

/// Renders `n` in decimal, most significant digit first.
pub fn u64_to_decimal(n: u64) -> (s: String)
    ensures
        s@ == dec_digits(n as nat),
{
    u128_to_decimal(n as u128)
}

/// Renders `n` in decimal, most significant digit first.
pub fn u8_to_decimal(n: u8) -> (s: String)
    ensures
        s@ == dec_digits(n as nat),
{
    u128_to_decimal(n as u128)
}

} // verus!
