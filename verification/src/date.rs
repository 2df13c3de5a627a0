//! Validation of ISO calendar dates in the `YYYY-MM-DD` shape used by the
//! wizard's date step: four digits, a dash, two digits, a dash, two digits,
//! with a real month and a real day of that month (leap years included).

use vstd::prelude::*;

verus! {

/// Whether `c` is a decimal digit.
pub open spec fn is_digit_char(c: char) -> bool {
    48 <= c as u32 && c as u32 <= 57
}

/// The numeric value of a decimal digit character.
pub open spec fn digit_val(c: char) -> int
    recommends
        is_digit_char(c),
{
    c as u32 - 48
}

/// Whether year `y` is a leap year of the Gregorian calendar.
pub open spec fn spec_is_leap_year(y: int) -> bool {
    (y % 4 == 0 && y % 100 != 0) || y % 400 == 0
}

/// The number of days in month `m` of year `y`.
pub open spec fn spec_days_in_month(y: int, m: int) -> int
    recommends
        1 <= m <= 12,
{
    if m == 2 {
        if spec_is_leap_year(y) {
            29
        } else {
            28
        }
    } else if m == 4 || m == 6 || m == 9 || m == 11 {
        30
    } else {
        31
    }
}

/// The year encoded in the first four characters of a date string.
pub open spec fn date_year(s: Seq<char>) -> int
    recommends
        s.len() == 10,
{
    digit_val(s[0]) * 1000 + digit_val(s[1]) * 100 + digit_val(s[2]) * 10 + digit_val(s[3])
}

/// The month encoded in characters five and six of a date string.
pub open spec fn date_month(s: Seq<char>) -> int
    recommends
        s.len() == 10,
{
    digit_val(s[5]) * 10 + digit_val(s[6])
}

/// The day encoded in the last two characters of a date string.
pub open spec fn date_day(s: Seq<char>) -> int
    recommends
        s.len() == 10,
{
    digit_val(s[8]) * 10 + digit_val(s[9])
}

/// Whether `s` is a well-formed ISO calendar date `YYYY-MM-DD`.
pub open spec fn spec_valid_date(s: Seq<char>) -> bool {
    &&& s.len() == 10
    &&& is_digit_char(s[0])
    &&& is_digit_char(s[1])
    &&& is_digit_char(s[2])
    &&& is_digit_char(s[3])
    &&& s[4] == '-'
    &&& is_digit_char(s[5])
    &&& is_digit_char(s[6])
    &&& s[7] == '-'
    &&& is_digit_char(s[8])
    &&& is_digit_char(s[9])
    &&& 1 <= date_month(s) <= 12
    &&& 1 <= date_day(s) <= spec_days_in_month(date_year(s), date_month(s))
}

/// Whether year `y` is a leap year.
pub fn is_leap_year(y: u32) -> (r: bool)
    ensures
        r == spec_is_leap_year(y as int),
{
    (y % 4 == 0 && y % 100 != 0) || y % 400 == 0
}

/// The number of days in month `m` of year `y`.
pub fn days_in_month(y: u32, m: u32) -> (r: u32)
    requires
        1 <= m <= 12,
    ensures
        r == spec_days_in_month(y as int, m as int),
{
    if m == 2 {
        if is_leap_year(y) {
            29
        } else {
            28
        }
    } else if m == 4 || m == 6 || m == 9 || m == 11 {
        30
    } else {
        31
    }
}

/// The numeric value of the digit at position `i`, or `None` if the character
/// there is not a digit.
fn digit_at(s: &str, i: usize) -> (r: Option<u32>)
    requires
        i < s@.len(),
    ensures
        match r {
            Some(d) => is_digit_char(s@[i as int]) && d == digit_val(s@[i as int]),
            None => !is_digit_char(s@[i as int]),
        },
{
    let code: u32 = s.get_char(i) as u32;
    if 48 <= code && code <= 57 {
        Some(code - 48)
    } else {
        None
    }
}

/// Check that `s` is a well-formed ISO calendar date `YYYY-MM-DD`.
pub fn valid_date(s: &str) -> (r: bool)
    ensures
        r == spec_valid_date(s@),
{
    let n: usize = s.unicode_len();
    if n != 10 {
        return false;
    }
    if s.get_char(4) != '-' || s.get_char(7) != '-' {
        return false;
    }
    let d0 = digit_at(s, 0);
    let d1 = digit_at(s, 1);
    let d2 = digit_at(s, 2);
    let d3 = digit_at(s, 3);
    let d5 = digit_at(s, 5);
    let d6 = digit_at(s, 6);
    let d8 = digit_at(s, 8);
    let d9 = digit_at(s, 9);
    match (d0, d1, d2, d3, d5, d6, d8, d9) {
        (
            Some(y0),
            Some(y1),
            Some(y2),
            Some(y3),
            Some(m0),
            Some(m1),
            Some(a0),
            Some(a1),
        ) => {
            let year: u32 = y0 * 1000 + y1 * 100 + y2 * 10 + y3;
            let month: u32 = m0 * 10 + m1;
            let day: u32 = a0 * 10 + a1;
            if month < 1 || month > 12 {
                return false;
            }
            1 <= day && day <= days_in_month(year, month)
        },
        _ => false,
    }
}

} // verus!
