use vstd::prelude::*;
use vstd::string::StrSliceExecFns;

use crate::errors::ApiError;

verus! {

/// A UTC instant at second precision, the library's own representation of
/// a `YYYY-MM-DD HH:MM:SS` time string. The fields are plain values, so
/// every computation over them is verified.
#[derive(Debug, Clone, Copy, PartialEq, Eq, Structural)]
pub struct UtcTime {
    pub year: u16,
    pub month: u8,
    pub day: u8,
    pub hour: u8,
    pub minute: u8,
    pub second: u8,
}

pub open spec fn spec_is_leap_year(y: int) -> bool {
    (y % 4 == 0 && y % 100 != 0) || y % 400 == 0
}

pub open spec fn spec_days_in_month(y: int, m: int) -> int {
    if m == 1 || m == 3 || m == 5 || m == 7 || m == 8 || m == 10 || m == 12 {
        31
    } else if m == 4 || m == 6 || m == 9 || m == 11 {
        30
    } else if spec_is_leap_year(y) {
        29
    } else {
        28
    }
}

impl UtcTime {
    /// The fields name a real instant of the proleptic Gregorian
    /// calendar, within the four-digit years.
    pub open spec fn wf(&self) -> bool {
        &&& self.year <= 9999
        &&& 1 <= self.month <= 12
        &&& 1 <= self.day <= spec_days_in_month(self.year as int, self.month as int)
        &&& self.hour <= 23
        &&& self.minute <= 59
        &&& self.second <= 59
    }
}

/// Days from the Unix epoch to a civil date, by the standard era
/// decomposition of the proleptic Gregorian calendar: the year is shifted
/// so March is the first month, whole 400-year eras (146097 days each)
/// are counted, and the day of era is built from the year of era and the
/// day of year. The year is offset by one era to keep every intermediate
/// value nonnegative; 719468 days separate 0000-03-01 from 1970-01-01.
pub open spec fn spec_days_from_epoch(y: int, m: int, d: int) -> int {
    let yy = if m <= 2 {
        y + 399
    } else {
        y + 400
    };
    let era = yy / 400;
    let yoe = yy % 400;
    let mp = if m > 2 {
        m - 3
    } else {
        m + 9
    };
    let doy = (153 * mp + 2) / 5 + d - 1;
    let doe = yoe * 365 + yoe / 4 - yoe / 100 + doy;
    era * 146097 + doe - 146097 - 719468
}

/// Seconds from the Unix epoch to a UTC instant.
pub open spec fn spec_epoch_seconds(t: UtcTime) -> int {
    spec_days_from_epoch(t.year as int, t.month as int, t.day as int) * 86400
        + t.hour as int * 3600 + t.minute as int * 60 + t.second as int
}

impl UtcTime {
    /// Seconds since the Unix epoch.
    pub fn timestamp(&self) -> (r: i64)
        requires
            self.wf(),
        ensures
            r == spec_epoch_seconds(*self),
    {
        let yy: u64 = if self.month <= 2 {
            self.year as u64 + 399
        } else {
            self.year as u64 + 400
        };
        let era: u64 = yy / 400;
        let yoe: u64 = yy % 400;
        let mp: u64 = if self.month > 2 {
            self.month as u64 - 3
        } else {
            self.month as u64 + 9
        };
        let doy: u64 = (153 * mp + 2) / 5 + self.day as u64 - 1;
        let doe: u64 = yoe * 365 + yoe / 4 - yoe / 100 + doy;
        let anchor: u64 = era * 146097 + doe;
        let days: i64 = anchor as i64 - 146097 - 719468;
        days * 86400 + (self.hour as i64) * 3600 + (self.minute as i64) * 60 + (
        self.second as i64)
    }

    /// Milliseconds since the Unix epoch.
    pub fn timestamp_millis(&self) -> (r: i64)
        requires
            self.wf(),
        ensures
            r == 1000 * spec_epoch_seconds(*self),
    {
        self.timestamp() * 1000
    }
}

pub open spec fn spec_is_digit(c: char) -> bool {
    48 <= c as int && c as int <= 57
}

pub open spec fn spec_digit_val(c: char) -> int {
    c as int - 48
}

pub open spec fn spec_num2(s: Seq<char>, i: int) -> int {
    spec_digit_val(s[i]) * 10 + spec_digit_val(s[i + 1])
}

pub open spec fn spec_num4(s: Seq<char>, i: int) -> int {
    spec_digit_val(s[i]) * 1000 + spec_digit_val(s[i + 1]) * 100 + spec_digit_val(s[i + 2]) * 10
        + spec_digit_val(s[i + 3])
}

/// The text is exactly `YYYY-MM-DD HH:MM:SS`: nineteen characters, digits
/// and fixed separators in fixed positions.
pub open spec fn spec_datetime_format_ok(s: Seq<char>) -> bool {
    &&& s.len() == 19
    &&& spec_is_digit(s[0]) && spec_is_digit(s[1]) && spec_is_digit(s[2]) && spec_is_digit(s[3])
    &&& s[4] == '-'
    &&& spec_is_digit(s[5]) && spec_is_digit(s[6])
    &&& s[7] == '-'
    &&& spec_is_digit(s[8]) && spec_is_digit(s[9])
    &&& s[10] == ' '
    &&& spec_is_digit(s[11]) && spec_is_digit(s[12])
    &&& s[13] == ':'
    &&& spec_is_digit(s[14]) && spec_is_digit(s[15])
    &&& s[16] == ':'
    &&& spec_is_digit(s[17]) && spec_is_digit(s[18])
}

/// The instant a well-formed time string denotes.
pub open spec fn spec_fields_of(s: Seq<char>) -> UtcTime {
    UtcTime {
        year: spec_num4(s, 0) as u16,
        month: spec_num2(s, 5) as u8,
        day: spec_num2(s, 8) as u8,
        hour: spec_num2(s, 11) as u8,
        minute: spec_num2(s, 14) as u8,
        second: spec_num2(s, 17) as u8,
    }
}

/// The text matches the format and its fields name a real UTC instant.
pub open spec fn spec_datetime_ok(s: Seq<char>) -> bool {
    spec_datetime_format_ok(s) && spec_fields_of(s).wf()
}

fn char_digit(c: char) -> (r: Option<u8>)
    ensures
        spec_is_digit(c) ==> (r matches Some(d) && d as int == spec_digit_val(c) && d <= 9),
        !spec_is_digit(c) ==> r is None,
{
    let u = c as u32;
    if 48 <= u && u <= 57 {
        Some((u - 48) as u8)
    } else {
        None
    }
}

fn days_in_month(year: u16, month: u8) -> (r: u8)
    requires
        1 <= month <= 12,
    ensures
        r as int == spec_days_in_month(year as int, month as int),
{
    if month == 1 || month == 3 || month == 5 || month == 7 || month == 8 || month == 10
        || month == 12 {
        31
    } else if month == 4 || month == 6 || month == 9 || month == 11 {
        30
    } else if (year % 4 == 0 && year % 100 != 0) || year % 400 == 0 {
        29
    } else {
        28
    }
}

/// Parses a `YYYY-MM-DD HH:MM:SS` string as a UTC instant. The string is
/// rejected exactly when it does not match the format or when its fields
/// name no real instant.
pub fn parse_utc_datetime(s: &str) -> (r: Result<UtcTime, ApiError>)
    ensures
        spec_datetime_ok(s@) ==> (r matches Ok(t) && t == spec_fields_of(s@) && t.wf()),
        !spec_datetime_ok(s@) ==> (r matches Err(e) && e is InvalidTime),
{
    if s.unicode_len() != 19 {
        return Err(ApiError::InvalidTime);
    }
    let sep_ok = s.get_char(4) == '-' && s.get_char(7) == '-' && s.get_char(10) == ' '
        && s.get_char(13) == ':' && s.get_char(16) == ':';
    if !sep_ok {
        return Err(ApiError::InvalidTime);
    }
    let d0 = char_digit(s.get_char(0));
    let d1 = char_digit(s.get_char(1));
    let d2 = char_digit(s.get_char(2));
    let d3 = char_digit(s.get_char(3));
    let d5 = char_digit(s.get_char(5));
    let d6 = char_digit(s.get_char(6));
    let d8 = char_digit(s.get_char(8));
    let d9 = char_digit(s.get_char(9));
    let d11 = char_digit(s.get_char(11));
    let d12 = char_digit(s.get_char(12));
    let d14 = char_digit(s.get_char(14));
    let d15 = char_digit(s.get_char(15));
    let d17 = char_digit(s.get_char(17));
    let d18 = char_digit(s.get_char(18));
    match (d0, d1, d2, d3, d5, d6, d8, d9, d11, d12, d14, d15, d17, d18) {
        (
            Some(y0),
            Some(y1),
            Some(y2),
            Some(y3),
            Some(m0),
            Some(m1),
            Some(a0),
            Some(a1),
            Some(h0),
            Some(h1),
            Some(i0),
            Some(i1),
            Some(c0),
            Some(c1),
        ) => {
            let year: u16 = y0 as u16 * 1000 + y1 as u16 * 100 + y2 as u16 * 10 + y3 as u16;
            let month: u8 = m0 * 10 + m1;
            let day: u8 = a0 * 10 + a1;
            let hour: u8 = h0 * 10 + h1;
            let minute: u8 = i0 * 10 + i1;
            let second: u8 = c0 * 10 + c1;
            if month < 1 || month > 12 {
                return Err(ApiError::InvalidTime);
            }
            if day < 1 || day > days_in_month(year, month) {
                return Err(ApiError::InvalidTime);
            }
            if hour > 23 || minute > 59 || second > 59 {
                return Err(ApiError::InvalidTime);
            }
            Ok(UtcTime { year, month, day, hour, minute, second })
        },
        _ => Err(ApiError::InvalidTime),
    }
}

} // verus!
