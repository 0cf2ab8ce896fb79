//! The date normalizer: parses an Eastern-time string in one of two fixed
//! formats — `MM/DD/YYYY hh:mm:ss AM|PM` or the bare date `MM/DD/YYYY`,
//! which stands for that date at 12:00:00 AM — and converts the wall-clock
//! time to a UTC epoch-second through the US Eastern timezone rules.

use vstd::prelude::*;
use vstd::string::StrSliceExecFns;

use crate::errors::DecodeError;

verus! {

/// The fields of a parsed wall-clock date and time.
#[derive(Clone, Copy, Debug, PartialEq, Eq, Structural)]
pub struct DateParts {
    pub year: u32,
    pub month: u32,
    pub day: u32,
    pub hour: u32,
    pub minute: u32,
    pub second: u32,
}

pub open spec fn is_digit(c: char) -> bool {
    48 <= c as u32 <= 57
}

pub open spec fn digit_val(c: char) -> int {
    c as u32 - 48
}

pub open spec fn digits2(s: Seq<char>, i: int) -> bool {
    is_digit(s[i]) && is_digit(s[i + 1])
}

pub open spec fn val2(s: Seq<char>, i: int) -> int {
    10 * digit_val(s[i]) + digit_val(s[i + 1])
}

pub open spec fn digits4(s: Seq<char>, i: int) -> bool {
    digits2(s, i) && digits2(s, i + 2)
}

pub open spec fn val4(s: Seq<char>, i: int) -> int {
    100 * val2(s, i) + val2(s, i + 2)
}

pub open spec fn is_leap_year(y: int) -> bool {
    y % 4 == 0 && (y % 100 != 0 || y % 400 == 0)
}

pub open spec fn days_in_month(y: int, m: int) -> int {
    if m == 2 {
        if is_leap_year(y) {
            29
        } else {
            28
        }
    } else if m == 4 || m == 6 || m == 9 || m == 11 {
        30
    } else {
        31
    }
}

/// The calendar fields `MM/DD/YYYY` read from the first ten characters:
/// two-digit month and day, four-digit year, a real calendar date.
pub open spec fn spec_date_fields(s: Seq<char>) -> Option<(int, int, int)> {
    if digits2(s, 0) && s[2] == '/' && digits2(s, 3) && s[5] == '/' && digits4(s, 6) {
        let mo = val2(s, 0);
        let dy = val2(s, 3);
        let y = val4(s, 6);
        if 1 <= mo <= 12 && 1 <= dy && dy <= days_in_month(y, mo) {
            Some((y, mo, dy))
        } else {
            None
        }
    } else {
        None
    }
}

pub open spec fn is_am_char(c: char) -> bool {
    c == 'A' || c == 'a'
}

pub open spec fn is_pm_char(c: char) -> bool {
    c == 'P' || c == 'p'
}

/// The clock fields ` hh:mm:ss AM|PM` read from characters 10 to 21,
/// given as a 24-hour (hour, minute, second) triple.
pub open spec fn spec_time_fields(s: Seq<char>) -> Option<(int, int, int)> {
    if s[10] == ' ' && digits2(s, 11) && s[13] == ':' && digits2(s, 14) && s[16] == ':'
        && digits2(s, 17) && s[19] == ' ' && (is_am_char(s[20]) || is_pm_char(s[20])) && (s[21]
        == 'M' || s[21] == 'm') {
        let h12 = val2(s, 11);
        let mi = val2(s, 14);
        let sec = val2(s, 17);
        if 1 <= h12 <= 12 && mi <= 59 && sec <= 59 {
            let h = if is_am_char(s[20]) {
                h12 % 12
            } else {
                h12 % 12 + 12
            };
            Some((h, mi, sec))
        } else {
            None
        }
    } else {
        None
    }
}

/// What a date string parses to: a 22-character string carries a date and a
/// 12-hour clock time, a 10-character string a bare date read as midnight,
/// and anything else fails.
pub open spec fn spec_parse_date(s: Seq<char>) -> Option<DateParts> {
    if s.len() == 10 {
        match spec_date_fields(s) {
            Some((y, mo, dy)) => Some(
                DateParts {
                    year: y as u32,
                    month: mo as u32,
                    day: dy as u32,
                    hour: 0,
                    minute: 0,
                    second: 0,
                },
            ),
            None => None,
        }
    } else if s.len() == 22 {
        match (spec_date_fields(s), spec_time_fields(s)) {
            (Some((y, mo, dy)), Some((h, mi, sec))) => Some(
                DateParts {
                    year: y as u32,
                    month: mo as u32,
                    day: dy as u32,
                    hour: h as u32,
                    minute: mi as u32,
                    second: sec as u32,
                },
            ),
            _ => None,
        }
    } else {
        None
    }
}

/// The digit value at position `i`, when the character there is a digit.
fn digit_at(s: &str, i: usize) -> (r: Option<u32>)
    requires
        i < s@.len(),
        s@.len() <= usize::MAX,
    ensures
        match r {
            Some(v) => is_digit(s@[i as int]) && v == digit_val(s@[i as int]),
            None => !is_digit(s@[i as int]),
        },
{
    let c = s.get_char(i);
    let u = c as u32;
    if 48 <= u && u <= 57 {
        Some(u - 48)
    } else {
        None
    }
}

/// The two-digit value at positions `i` and `i + 1`.
fn two_digits_at(s: &str, i: usize) -> (r: Option<u32>)
    requires
        i + 2 <= s@.len(),
        s@.len() <= usize::MAX,
    ensures
        match r {
            Some(v) => digits2(s@, i as int) && v == val2(s@, i as int),
            None => !digits2(s@, i as int),
        },
{
    match (digit_at(s, i), digit_at(s, i + 1)) {
        (Some(a), Some(b)) => Some(10 * a + b),
        _ => None,
    }
}

/// The four-digit value at positions `i` through `i + 3`.
fn four_digits_at(s: &str, i: usize) -> (r: Option<u32>)
    requires
        i + 4 <= s@.len(),
        s@.len() <= usize::MAX,
    ensures
        match r {
            Some(v) => digits4(s@, i as int) && v == val4(s@, i as int),
            None => !digits4(s@, i as int),
        },
{
    match (two_digits_at(s, i), two_digits_at(s, i + 2)) {
        (Some(a), Some(b)) => Some(100 * a + b),
        _ => None,
    }
}

/// Whether the character at position `i` is `c`.
fn char_at_is(s: &str, i: usize, c: char) -> (r: bool)
    requires
        i < s@.len(),
        s@.len() <= usize::MAX,
    ensures
        r == (s@[i as int] == c),
{
    s.get_char(i) == c
}

/// The number of days in a month of the proleptic Gregorian calendar.
fn month_length(y: u32, m: u32) -> (r: u32)
    ensures
        r == days_in_month(y as int, m as int),
{
    if m == 2 {
        if y % 4 == 0 && (y % 100 != 0 || y % 400 == 0) {
            29
        } else {
            28
        }
    } else if m == 4 || m == 6 || m == 9 || m == 11 {
        30
    } else {
        31
    }
}

/// The `MM/DD/YYYY` fields at the start of `s`, as `spec_date_fields` reads
/// them.
fn date_fields(s: &str) -> (r: Option<(u32, u32, u32)>)
    requires
        10 <= s@.len(),
        s@.len() <= usize::MAX,
    ensures
        match r {
            Some((y, mo, dy)) => spec_date_fields(s@) == Some((y as int, mo as int, dy as int)),
            None => spec_date_fields(s@) is None,
        },
{
    let mo = match two_digits_at(s, 0) {
        Some(v) => v,
        None => {
            return None;
        },
    };
    if !char_at_is(s, 2, '/') {
        return None;
    }
    let dy = match two_digits_at(s, 3) {
        Some(v) => v,
        None => {
            return None;
        },
    };
    if !char_at_is(s, 5, '/') {
        return None;
    }
    let y = match four_digits_at(s, 6) {
        Some(v) => v,
        None => {
            return None;
        },
    };
    if 1 <= mo && mo <= 12 && 1 <= dy && dy <= month_length(y, mo) {
        Some((y, mo, dy))
    } else {
        None
    }
}

/// The ` hh:mm:ss AM|PM` fields at positions 10 to 21 of `s`, as
/// `spec_time_fields` reads them.
fn time_fields(s: &str) -> (r: Option<(u32, u32, u32)>)
    requires
        22 <= s@.len(),
        s@.len() <= usize::MAX,
    ensures
        match r {
            Some((h, mi, sec)) => spec_time_fields(s@) == Some((h as int, mi as int, sec as int)),
            None => spec_time_fields(s@) is None,
        },
{
    if !char_at_is(s, 10, ' ') {
        return None;
    }
    let h12 = match two_digits_at(s, 11) {
        Some(v) => v,
        None => {
            return None;
        },
    };
    if !char_at_is(s, 13, ':') {
        return None;
    }
    let mi = match two_digits_at(s, 14) {
        Some(v) => v,
        None => {
            return None;
        },
    };
    if !char_at_is(s, 16, ':') {
        return None;
    }
    let sec = match two_digits_at(s, 17) {
        Some(v) => v,
        None => {
            return None;
        },
    };
    if !char_at_is(s, 19, ' ') {
        return None;
    }
    let am = char_at_is(s, 20, 'A') || char_at_is(s, 20, 'a');
    let pm = char_at_is(s, 20, 'P') || char_at_is(s, 20, 'p');
    if !(am || pm) {
        return None;
    }
    if !(char_at_is(s, 21, 'M') || char_at_is(s, 21, 'm')) {
        return None;
    }
    if !(1 <= h12 && h12 <= 12 && mi <= 59 && sec <= 59) {
        return None;
    }
    let h = if am {
        h12 % 12
    } else {
        h12 % 12 + 12
    };
    Some((h, mi, sec))
}

/// Parses a date string into its wall-clock fields, exactly as
/// `spec_parse_date` states it.
pub fn parse_date_parts(s: &str) -> (r: Option<DateParts>)
    ensures
        r == spec_parse_date(s@),
{
    let n = s.unicode_len();
    if n == 10 {
        match date_fields(s) {
            Some((y, mo, dy)) => Some(
                DateParts { year: y, month: mo, day: dy, hour: 0, minute: 0, second: 0 },
            ),
            None => None,
        }
    } else if n == 22 {
        match (date_fields(s), time_fields(s)) {
            (Some((y, mo, dy)), Some((h, mi, sec))) => Some(
                DateParts { year: y, month: mo, day: dy, hour: h, minute: mi, second: sec },
            ),
            _ => None,
        }
    } else {
        None
    }
}

/// The UTC epoch-second that the US Eastern timezone rules assign to the
/// given wall-clock fields, or `None` when the rules give the wall-clock
/// time no single UTC instant.
pub uninterp spec fn eastern_single_utc(
    y: int,
    mo: int,
    dy: int,
    h: int,
    mi: int,
    s: int,
) -> Option<int>;

/// `eastern_single_utc` applied to a `DateParts` value.
pub open spec fn spec_eastern_of_parts(p: DateParts) -> Option<int> {
    eastern_single_utc(
        p.year as int,
        p.month as int,
        p.day as int,
        p.hour as int,
        p.minute as int,
        p.second as int,
    )
}

/// Relies on chrono_tz's `US::Eastern` with chrono's `NaiveDate::from_ymd_opt`,
/// `and_hms_opt` and `and_local_timezone`: a wall-clock time maps to `Some`
/// UTC epoch-second exactly when the timezone database gives it one UTC
/// instant, and to `None` when the fields make no calendar date or fall in a
/// DST gap or overlap.
#[verifier::external_body]
fn eastern_to_utc_secs(p: &DateParts) -> (r: Option<i64>)
    ensures
        match r {
            Some(t) => eastern_single_utc(
                p.year as int,
                p.month as int,
                p.day as int,
                p.hour as int,
                p.minute as int,
                p.second as int,
            ) == Some(t as int),
            None => eastern_single_utc(
                p.year as int,
                p.month as int,
                p.day as int,
                p.hour as int,
                p.minute as int,
                p.second as int,
            ) is None,
        },
{
    let date = chrono::NaiveDate::from_ymd_opt(p.year as i32, p.month, p.day)?;
    let ndt = date.and_hms_opt(p.hour, p.minute, p.second)?;
    let local = ndt.and_local_timezone(chrono_tz::US::Eastern).single()?;
    Some(local.timestamp())
}

/// Normalizes an Eastern-time date string to a UTC epoch-second: the string
/// must parse under `spec_parse_date`, and the parsed wall-clock time must
/// map to a single UTC instant.
pub fn normalize_eastern_datetime(s: &str) -> (r: Result<i64, DecodeError>)
    ensures
        ({
            let p = spec_parse_date(s@);
            match r {
                Ok(t) => p is Some && spec_eastern_of_parts(p->Some_0) == Some(t as int),
                Err(e) => (p is None && e == DecodeError::UnparseableDate) || (p is Some
                    && spec_eastern_of_parts(p->Some_0) is None && e
                    == DecodeError::NonSingleLocalTime),
            }
        }),
{
    match parse_date_parts(s) {
        None => Err(DecodeError::UnparseableDate),
        Some(p) => match eastern_to_utc_secs(&p) {
            None => Err(DecodeError::NonSingleLocalTime),
            Some(t) => Ok(t),
        },
    }
}

/// A bare `MM/DD/YYYY` string parses to the same wall-clock fields as that
/// string with the fallback time `12:00:00 AM` appended: both denote the
/// date at midnight, so the normalizer treats the two alike.
pub proof fn lemma_bare_date_midnight(s: Seq<char>)
    requires
        s.len() == 10,
    ensures
        spec_parse_date(s + " 12:00:00 AM"@) == spec_parse_date(s),
{
    reveal_strlit(" 12:00:00 AM");
    let tail = " 12:00:00 AM"@;
    let t = s + tail;
    assert(t.len() == 22);
    assert(forall|i: int| 0 <= i < 10 ==> t[i] == s[i]);
    assert(t[10] == ' ' && t[11] == '1' && t[12] == '2' && t[13] == ':' && t[14] == '0' && t[15]
        == '0' && t[16] == ':' && t[17] == '0' && t[18] == '0' && t[19] == ' ' && t[20] == 'A'
        && t[21] == 'M');
    assert(spec_time_fields(t) == Some((0int, 0int, 0int)));
    assert(spec_date_fields(t) == spec_date_fields(s));
}

} // verus!
