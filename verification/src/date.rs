//! Validation of year, month, day and date parameters.
//!
//! A number is written as an optional sign followed by one or more ASCII
//! digits. Dates are eight characters, `YYYYMMDD`; the three parts are
//! checked against their ranges and not against the calendar.

use vstd::prelude::*;
use crate::text::chars_of;

verus! {

/// Whether `c` is one of the ASCII digits `0` to `9`.
pub open spec fn is_digit(c: char) -> bool {
    '0' <= c && c <= '9'
}

/// Whether every character of `s` is an ASCII digit.
pub open spec fn all_digits(s: Seq<char>) -> bool {
    forall|i: int| 0 <= i < s.len() ==> is_digit(#[trigger] s[i])
}

/// The number that the digit `c` stands for.
pub open spec fn digit_value(c: char) -> nat {
    (c as int - '0' as int) as nat
}

/// The number written in decimal by the digits `s`; the empty string gives 0.
pub open spec fn decimal_value(s: Seq<char>) -> nat
    decreases s.len(),
{
    if s.len() == 0 {
        0
    } else {
        decimal_value(s.drop_last()) * 10 + digit_value(s.last())
    }
}

/// The part of `s` after its sign, if it has one.
pub open spec fn unsigned_part(s: Seq<char>) -> Seq<char> {
    if s.len() > 0 && (s[0] == '+' || s[0] == '-') {
        s.subrange(1, s.len() as int)
    } else {
        s
    }
}

/// The 32-bit signed integer that `s` denotes: an optional `+` or `-`, then
/// at least one ASCII digit and nothing else. A number outside the 32-bit
/// range denotes nothing.
pub open spec fn parse_int(s: Seq<char>) -> Option<int> {
    let body = unsigned_part(s);
    if body.len() == 0 || !all_digits(body) {
        None
    } else {
        let v: int = if s[0] == '-' {
            -(decimal_value(body) as int)
        } else {
            decimal_value(body) as int
        };
        if i32::MIN <= v <= i32::MAX {
            Some(v)
        } else {
            None
        }
    }
}

/// The number that `s` denotes, provided that it lies in `lo..=hi`.
pub open spec fn parse_in_range(s: Seq<char>, lo: int, hi: int) -> Option<int> {
    match parse_int(s) {
        Some(v) => if lo <= v <= hi { Some(v) } else { None },
        None => None,
    }
}

/// The year that `s` denotes: a number from 1900 to 9999.
pub open spec fn year_of(s: Seq<char>) -> Option<int> {
    parse_in_range(s, 1900, 9999)
}

/// The month that `s` denotes: a number from 1 to 12.
pub open spec fn month_of(s: Seq<char>) -> Option<int> {
    parse_in_range(s, 1, 12)
}

/// The day that `s` denotes: a number from 1 to 31.
pub open spec fn day_of(s: Seq<char>) -> Option<int> {
    parse_in_range(s, 1, 31)
}

/// Whether `s` is a date: eight characters of which the first four are a
/// year, the next two a month and the last two a day.
pub open spec fn valid_date(s: Seq<char>) -> bool {
    &&& s.len() == 8
    &&& year_of(s.subrange(0, 4)) is Some
    &&& month_of(s.subrange(4, 6)) is Some
    &&& day_of(s.subrange(6, 8)) is Some
}

/// Whether `year` is a year and `date` is a date.
pub open spec fn valid_year_date(year: Seq<char>, date: Seq<char>) -> bool {
    year_of(year) is Some && valid_date(date)
}

/// A longer run of digits never denotes a smaller number than its beginning.
pub proof fn lemma_decimal_value_grows(s: Seq<char>, k: int)
    requires
        0 <= k <= s.len(),
    ensures
        decimal_value(s.subrange(0, k)) <= decimal_value(s),
    decreases s.len(),
{
    if k == s.len() {
        assert(s.subrange(0, k) == s);
    } else {
        lemma_decimal_value_grows(s.drop_last(), k);
        assert(s.drop_last().subrange(0, k) == s.subrange(0, k));
    }
}

/// The number denoted by the characters `v[from..to]`, if it lies in
/// `lo..=hi`.
fn parse_slice(v: &Vec<char>, from: usize, to: usize, lo: i32, hi: i32) -> (r: Option<i32>)
    requires
        from <= to <= v.len(),
    ensures
        r.is_some() == parse_in_range(v@.subrange(from as int, to as int), lo as int, hi as int).is_some(),
        r matches Some(n) ==> parse_in_range(v@.subrange(from as int, to as int), lo as int, hi as int)
            == Some(n as int),
{
    let ghost s = v@.subrange(from as int, to as int);
    if from == to {
        return None;
    }
    let negative = v[from] == '-';
    let start: usize = if v[from] == '-' || v[from] == '+' {
        from + 1
    } else {
        from
    };
    let ghost body = unsigned_part(s);
    assert(s[0] == v@[from as int]);
    assert(body == v@.subrange(start as int, to as int));
    if start == to {
        return None;
    }
    // The magnitude read so far, as long as it is at most 2^31.
    let mut acc: u64 = 0;
    let mut overflow = false;
    let mut i: usize = start;
    while i < to
        invariant
            from <= start <= i <= to <= v.len(),
            s == v@.subrange(from as int, to as int),
            body == unsigned_part(s),
            body == v@.subrange(start as int, to as int),
            all_digits(body.subrange(0, i - start)),
            !overflow ==> acc == decimal_value(body.subrange(0, i - start)),
            !overflow ==> acc <= 0x8000_0000,
            overflow ==> decimal_value(body) > 0x8000_0000,
        decreases to - i,
    {
        let c = v[i];
        if !(c >= '0' && c <= '9') {
            assert(!is_digit(body[i - start]));
            return None;
        }
        let ghost head = body.subrange(0, i - start);
        let ghost next = body.subrange(0, i - start + 1);
        proof {
            assert(next.drop_last() == head);
            assert(next.last() == c);
            assert forall|k: int| 0 <= k < next.len() implies is_digit(#[trigger] next[k]) by {
                if k < head.len() {
                    assert(head[k] == next[k]);
                }
            }
        }
        if !overflow {
            let d: u64 = (c as u64) - ('0' as u64);
            assert(d == digit_value(c));
            acc = acc * 10 + d;
            if acc > 0x8000_0000 {
                overflow = true;
                proof {
                    lemma_decimal_value_grows(body, i - start + 1);
                }
            }
        }
        i += 1;
    }
    assert(body.subrange(0, i - start) == body);
    if overflow {
        return None;
    }
    if negative {
        if acc > 0x8000_0000 {
            return None;
        }
        let n: i64 = -(acc as i64);
        if n < lo as i64 || n > hi as i64 {
            return None;
        }
        Some(n as i32)
    } else {
        if acc > 0x7fff_ffff {
            return None;
        }
        let n: i64 = acc as i64;
        if n < lo as i64 || n > hi as i64 {
            return None;
        }
        Some(n as i32)
    }
}

/// Parses a year parameter: a number from 1900 to 9999.
pub fn parse_year(year: &str) -> (r: Option<i32>)
    ensures
        r.is_some() == year_of(year@).is_some(),
        r matches Some(n) ==> year_of(year@) == Some(n as int),
{
    let v = chars_of(year);
    assert(v@.subrange(0, v@.len() as int) == v@);
    parse_slice(&v, 0, v.len(), 1900, 9999)
}

/// Parses a month parameter: a number from 1 to 12.
pub fn parse_month(month: &str) -> (r: Option<i32>)
    ensures
        r.is_some() == month_of(month@).is_some(),
        r matches Some(n) ==> month_of(month@) == Some(n as int),
{
    let v = chars_of(month);
    assert(v@.subrange(0, v@.len() as int) == v@);
    parse_slice(&v, 0, v.len(), 1, 12)
}

/// Parses a day parameter: a number from 1 to 31.
pub fn parse_day(day: &str) -> (r: Option<i32>)
    ensures
        r.is_some() == day_of(day@).is_some(),
        r matches Some(n) ==> day_of(day@) == Some(n as int),
{
    let v = chars_of(day);
    assert(v@.subrange(0, v@.len() as int) == v@);
    parse_slice(&v, 0, v.len(), 1, 31)
}

/// Whether the characters `v` are a date.
pub fn is_valid_date_chars(v: &Vec<char>) -> (r: bool)
    ensures
        r == valid_date(v@),
{
    v.len() == 8 && parse_slice(v, 0, 4, 1900, 9999).is_some() && parse_slice(
        v,
        4,
        6,
        1,
        12,
    ).is_some() && parse_slice(v, 6, 8, 1, 31).is_some()
}

/// Checks whether a date is valid.
pub fn is_valid_date(date: &str) -> (r: bool)
    ensures
        r == valid_date(date@),
{
    let v = chars_of(date);
    is_valid_date_chars(&v)
}

/// Checks whether a year and a date are both valid.
pub fn is_valid_year_date(year: &str, date: &str) -> (r: bool)
    ensures
        r == valid_year_date(year@, date@),
{
    parse_year(year).is_some() && is_valid_date(date)
}

} // verus!
