//! Decimal numbers in command output.
use crate::text::{trim_text, trimmed};
use vstd::prelude::*;

verus! {

pub open spec fn is_digit(c: char) -> bool {
    '0' <= c && c <= '9'
}

/// The value of a run of decimal digits.
pub open spec fn digits_value(s: Seq<char>) -> int
    decreases s.len(),
{
    if s.len() == 0 {
        0
    } else {
        digits_value(s.drop_last()) * 10 + ((s.last() as u32) as int - 48)
    }
}

/// One or more decimal digits.
pub open spec fn all_digits(s: Seq<char>) -> bool {
    s.len() > 0 && forall|i: int| 0 <= i < s.len() ==> is_digit(#[trigger] s[i])
}

/// The value of an optional sign followed by digits.
pub open spec fn signed_value(s: Seq<char>) -> Option<int> {
    if s.len() > 0 && s[0] == '-' && all_digits(s.drop_first()) {
        Some(-digits_value(s.drop_first()))
    } else if s.len() > 0 && s[0] == '+' && all_digits(s.drop_first()) {
        Some(digits_value(s.drop_first()))
    } else if all_digits(s) {
        Some(digits_value(s))
    } else {
        None
    }
}

/// The value of an optional plus sign followed by digits.
pub open spec fn unsigned_value(s: Seq<char>) -> Option<int> {
    if s.len() > 0 && s[0] == '+' && all_digits(s.drop_first()) {
        Some(digits_value(s.drop_first()))
    } else if all_digits(s) {
        Some(digits_value(s))
    } else {
        None
    }
}

/// Relies on `i64::from_str`: an optional sign followed by decimal digits,
/// refused when anything else is present or the value does not fit.
#[verifier::external_body]
fn parse_i64(s: &str) -> (r: Option<i64>)
    ensures
        match r {
            Some(v) => signed_value(s@) == Some(v as int),
            None => match signed_value(s@) {
                Some(x) => x < i64::MIN || x > i64::MAX,
                None => true,
            },
        },
{
    s.parse::<i64>().ok()
}

/// Relies on `usize::from_str`: an optional plus sign followed by decimal
/// digits, refused when anything else is present or the value does not fit.
#[verifier::external_body]
fn parse_usize(s: &str) -> (r: Option<usize>)
    ensures
        match r {
            Some(v) => unsigned_value(s@) == Some(v as int),
            None => match unsigned_value(s@) {
                Some(x) => x > usize::MAX,
                None => true,
            },
        },
{
    s.parse::<usize>().ok()
}

/// A timestamp field: its value, or zero when it is not a number that
/// fits.
pub fn timestamp_or_zero(s: &str) -> (r: i64)
    ensures
        r == (match signed_value(s@) {
            Some(x) => if i64::MIN <= x <= i64::MAX {
                x
            } else {
                0
            },
            None => 0,
        }),
{
    match parse_i64(s) {
        Some(v) => v,
        None => 0,
    }
}

/// A count printed by a command: the trimmed output's value, or zero when
/// it is not a number that fits.
pub fn count_or_zero(output: &str) -> (r: usize)
    ensures
        r == (match unsigned_value(trimmed(output@)) {
            Some(x) => if x <= usize::MAX {
                x
            } else {
                0
            },
            None => 0,
        }),
{
    let t = trim_text(output);
    match parse_usize(t.as_str()) {
        Some(v) => v,
        None => 0,
    }
}

} // verus!
