//! The canonical point-in-time type and the two carrier date formats:
//! `YYYY-MM-DDTHH:MM:SS` (a full timestamp, read as UTC) and `YYYY-MM-DD`
//! (a bare date, given the synthetic time of day 00:00:01 UTC so that two
//! parsed values are always comparable without ambiguity at midnight).

use vstd::prelude::*;
use vstd::string::StrSliceExecFns;

use crate::error::{ClientError, ClientResult};
use crate::text::is_digit;

verus! {

/// A calendar timestamp in UTC, field by field. The carrier never supplies
/// an offset, so no zone conversion is ever performed.
#[derive(Clone, Copy, Debug, PartialEq, Eq, Structural)]
pub struct Timestamp {
    pub year: u16,
    pub month: u8,
    pub day: u8,
    pub hour: u8,
    pub minute: u8,
    pub second: u8,
}

pub open spec fn is_leap_year(y: int) -> bool {
    y % 4 == 0 && (y % 100 != 0 || y % 400 == 0)
}

pub open spec fn days_in_month(y: int, m: int) -> int {
    if m == 2 {
        if is_leap_year(y) {
            29
        } else {
            28
        }
    } else if m == 4 || m == 6 || m == 9 || m == 11 {
        30
    } else {
        31
    }
}

/// The fields name a real calendar date and time of day.
pub open spec fn valid_timestamp(t: Timestamp) -> bool {
    &&& 1 <= t.month <= 12
    &&& 1 <= t.day <= days_in_month(t.year as int, t.month as int)
    &&& t.hour < 24
    &&& t.minute < 60
    &&& t.second < 60
}

/// Numeric value of a digit character.
pub open spec fn digit_val(c: char) -> int {
    c as int - '0' as int
}

/// Value of the two digits of `s` at `i` and `i + 1`.
pub open spec fn num2(s: Seq<char>, i: int) -> int {
    digit_val(s[i]) * 10 + digit_val(s[i + 1])
}

/// Value of the four digits of `s` starting at `i`.
pub open spec fn num4(s: Seq<char>, i: int) -> int {
    digit_val(s[i]) * 1000 + digit_val(s[i + 1]) * 100 + digit_val(s[i + 2]) * 10 + digit_val(
        s[i + 3],
    )
}

/// Shape of `YYYY-MM-DDTHH:MM:SS`: length, separators, digits in place.
pub open spec fn datetime_shape(s: Seq<char>) -> bool {
    &&& s.len() == 19
    &&& is_digit(s[0]) && is_digit(s[1]) && is_digit(s[2]) && is_digit(s[3])
    &&& s[4] == '-'
    &&& is_digit(s[5]) && is_digit(s[6])
    &&& s[7] == '-'
    &&& is_digit(s[8]) && is_digit(s[9])
    &&& s[10] == 'T'
    &&& is_digit(s[11]) && is_digit(s[12])
    &&& s[13] == ':'
    &&& is_digit(s[14]) && is_digit(s[15])
    &&& s[16] == ':'
    &&& is_digit(s[17]) && is_digit(s[18])
}

/// Shape of `YYYY-MM-DD`.
pub open spec fn date_shape(s: Seq<char>) -> bool {
    &&& s.len() == 10
    &&& is_digit(s[0]) && is_digit(s[1]) && is_digit(s[2]) && is_digit(s[3])
    &&& s[4] == '-'
    &&& is_digit(s[5]) && is_digit(s[6])
    &&& s[7] == '-'
    &&& is_digit(s[8]) && is_digit(s[9])
}

/// The timestamp denoted by a `YYYY-MM-DDTHH:MM:SS` string, or `None` when
/// the string is malformed or names no real date or time.
pub open spec fn datetime_of(s: Seq<char>) -> Option<Timestamp> {
    if datetime_shape(s) {
        let t = Timestamp {
            year: num4(s, 0) as u16,
            month: num2(s, 5) as u8,
            day: num2(s, 8) as u8,
            hour: num2(s, 11) as u8,
            minute: num2(s, 14) as u8,
            second: num2(s, 17) as u8,
        };
        if valid_timestamp(t) {
            Some(t)
        } else {
            None
        }
    } else {
        None
    }
}

/// The timestamp denoted by a `YYYY-MM-DD` string: the named day at the
/// synthetic time of day 00:00:01, or `None` when the string is malformed or
/// names no real date.
pub open spec fn date_of(s: Seq<char>) -> Option<Timestamp> {
    if date_shape(s) {
        let t = Timestamp {
            year: num4(s, 0) as u16,
            month: num2(s, 5) as u8,
            day: num2(s, 8) as u8,
            hour: 0,
            minute: 0,
            second: 1,
        };
        if valid_timestamp(t) {
            Some(t)
        } else {
            None
        }
    } else {
        None
    }
}

/// Chronological order of two timestamps: field by field, most significant
/// first. On valid timestamps this is exactly earlier-than.
pub open spec fn ts_before(a: Timestamp, b: Timestamp) -> bool {
    if a.year != b.year {
        a.year < b.year
    } else if a.month != b.month {
        a.month < b.month
    } else if a.day != b.day {
        a.day < b.day
    } else if a.hour != b.hour {
        a.hour < b.hour
    } else if a.minute != b.minute {
        a.minute < b.minute
    } else {
        a.second < b.second
    }
}

/// Exec mirror of `days_in_month`.
fn days_in_month_exec(y: u16, m: u8) -> (d: u8)
    ensures
        d as int == days_in_month(y as int, m as int),
{
    if m == 2 {
        if y % 4 == 0 && (y % 100 != 0 || y % 400 == 0) {
            29
        } else {
            28
        }
    } else if m == 4 || m == 6 || m == 9 || m == 11 {
        30
    } else {
        31
    }
}

/// Exec mirror of `valid_timestamp`.
fn check_timestamp(t: &Timestamp) -> (b: bool)
    ensures
        b == valid_timestamp(*t),
{
    1 <= t.month && t.month <= 12 && 1 <= t.day && t.day <= days_in_month_exec(t.year, t.month)
        && t.hour < 24 && t.minute < 60 && t.second < 60
}

/// Reads the digit at position `i`; `None` when the character there is not a
/// digit.
fn digit_at(s: &str, i: usize) -> (r: Option<u8>)
    requires
        i < s@.len(),
    ensures
        r is Some <==> is_digit(s@[i as int]),
        r matches Some(d) ==> d as int == digit_val(s@[i as int]) && d <= 9,
{
    let c = s.get_char(i);
    if '0' <= c && c <= '9' {
        Some((c as u32 - '0' as u32) as u8)
    } else {
        None
    }
}

/// Checks that the separator at position `i` is `c`.
fn sep_at(s: &str, i: usize, c: char) -> (b: bool)
    requires
        i < s@.len(),
    ensures
        b == (s@[i as int] == c),
{
    s.get_char(i) == c
}

/// Reads the two-digit number at positions `i`, `i + 1`.
fn read2(s: &str, i: usize) -> (r: Option<u8>)
    requires
        i + 1 < s@.len(),
        s@.len() <= usize::MAX,
    ensures
        r is Some <==> is_digit(s@[i as int]) && is_digit(s@[i as int + 1]),
        r matches Some(v) ==> v as int == num2(s@, i as int) && v <= 99,
{
    let d0 = match digit_at(s, i) {
        Some(d) => d,
        None => {
            return None;
        },
    };
    let d1 = match digit_at(s, i + 1) {
        Some(d) => d,
        None => {
            return None;
        },
    };
    Some(d0 * 10 + d1)
}

/// Reads the four-digit number at positions `i` .. `i + 3`.
fn read4(s: &str, i: usize) -> (r: Option<u16>)
    requires
        i + 3 < s@.len(),
        s@.len() <= usize::MAX,
    ensures
        r is Some <==> is_digit(s@[i as int]) && is_digit(s@[i as int + 1]) && is_digit(
            s@[i as int + 2],
        ) && is_digit(s@[i as int + 3]),
        r matches Some(v) ==> v as int == num4(s@, i as int) && v <= 9999,
{
    let d0 = match digit_at(s, i) {
        Some(d) => d,
        None => {
            return None;
        },
    };
    let d1 = match digit_at(s, i + 1) {
        Some(d) => d,
        None => {
            return None;
        },
    };
    let d2 = match digit_at(s, i + 2) {
        Some(d) => d,
        None => {
            return None;
        },
    };
    let d3 = match digit_at(s, i + 3) {
        Some(d) => d,
        None => {
            return None;
        },
    };
    Some(d0 as u16 * 1000 + d1 as u16 * 100 + d2 as u16 * 10 + d3 as u16)
}

fn parse_error() -> (e: ClientError)
    ensures
        e matches ClientError::DeserializationError(m) && m@ == "Could not parse date"@,
{
    ClientError::DeserializationError(String::from_str("Could not parse date"))
}

impl Timestamp {
    /// Whether `self` is strictly earlier than `other`. The synthetic
    /// 00:00:01 time of day given to bare dates exists so that every parsed
    /// value takes part in this order without ambiguity at midnight.
    pub fn precedes(&self, other: &Timestamp) -> (r: bool)
        ensures
            r == ts_before(*self, *other),
    {
        if self.year != other.year {
            self.year < other.year
        } else if self.month != other.month {
            self.month < other.month
        } else if self.day != other.day {
            self.day < other.day
        } else if self.hour != other.hour {
            self.hour < other.hour
        } else if self.minute != other.minute {
            self.minute < other.minute
        } else {
            self.second < other.second
        }
    }

    /// Parses the carrier's `YYYY-MM-DDTHH:MM:SS` format, read as UTC.
    /// Succeeds exactly on well-shaped strings naming a real date and time;
    /// everything else is a `DeserializationError`.
    pub fn parse_datetime(raw: &str) -> (res: ClientResult<Timestamp>)
        ensures
            res is Ok <==> datetime_of(raw@) is Some,
            res matches Ok(t) ==> datetime_of(raw@) == Some(t),
            res matches Err(e) ==> e matches ClientError::DeserializationError(m)
                && m@ == "Could not parse date"@,
    {
        if raw.unicode_len() != 19 {
            return Err(parse_error());
        }
        if !(sep_at(raw, 4, '-') && sep_at(raw, 7, '-') && sep_at(raw, 10, 'T') && sep_at(
            raw,
            13,
            ':',
        ) && sep_at(raw, 16, ':')) {
            return Err(parse_error());
        }
        let year = match read4(raw, 0) {
            Some(v) => v,
            None => {
                return Err(parse_error());
            },
        };
        let month = match read2(raw, 5) {
            Some(v) => v,
            None => {
                return Err(parse_error());
            },
        };
        let day = match read2(raw, 8) {
            Some(v) => v,
            None => {
                return Err(parse_error());
            },
        };
        let hour = match read2(raw, 11) {
            Some(v) => v,
            None => {
                return Err(parse_error());
            },
        };
        let minute = match read2(raw, 14) {
            Some(v) => v,
            None => {
                return Err(parse_error());
            },
        };
        let second = match read2(raw, 17) {
            Some(v) => v,
            None => {
                return Err(parse_error());
            },
        };
        let t = Timestamp { year, month, day, hour, minute, second };
        if check_timestamp(&t) {
            Ok(t)
        } else {
            Err(parse_error())
        }
    }

    /// Parses the carrier's bare `YYYY-MM-DD` format and fixes the time of
    /// day at 00:00:01 UTC — a deliberate one-second convention, not a
    /// carrier format. Succeeds exactly on well-shaped strings naming a real
    /// date.
    pub fn parse_date(raw: &str) -> (res: ClientResult<Timestamp>)
        ensures
            res is Ok <==> date_of(raw@) is Some,
            res matches Ok(t) ==> date_of(raw@) == Some(t),
            res matches Err(e) ==> e matches ClientError::DeserializationError(m)
                && m@ == "Could not parse date"@,
    {
        if raw.unicode_len() != 10 {
            return Err(parse_error());
        }
        if !(sep_at(raw, 4, '-') && sep_at(raw, 7, '-')) {
            return Err(parse_error());
        }
        let year = match read4(raw, 0) {
            Some(v) => v,
            None => {
                return Err(parse_error());
            },
        };
        let month = match read2(raw, 5) {
            Some(v) => v,
            None => {
                return Err(parse_error());
            },
        };
        let day = match read2(raw, 8) {
            Some(v) => v,
            None => {
                return Err(parse_error());
            },
        };
        let t = Timestamp { year, month, day, hour: 0, minute: 0, second: 1 };
        if check_timestamp(&t) {
            Ok(t)
        } else {
            Err(parse_error())
        }
    }
}

} // verus!
