//! The provider timestamp parser and the calendar arithmetic behind it.
//!
//! A provider timestamp is a fixed positional layout of at least 15
//! characters: `YYYYMMDD`, one separator character (ignored), `HHMMSS`.
//! The wall-clock fields are interpreted in the provider's home time zone
//! (Europe/Paris): UTC+1 in winter and UTC+2 in summer, with the current
//! European Union rule — summer time runs from 02:00 local on the last
//! Sunday of March to 03:00 local on the last Sunday of October — applied
//! to every year. An ambiguous wall clock in the repeated autumn hour is
//! read with the summer offset (the earlier instant).

use crate::error::{SncfAPIError, SncfAPIErrorV};
use crate::strutil::digit_char;
use crate::strutil::digit_str;
use vstd::prelude::*;
use vstd::string::*;

verus! {

/// A calendar timestamp bound to the provider's home time zone, together
/// with the absolute instant it denotes.
#[derive(Clone, Copy, Debug, PartialEq, Eq, Structural)]
pub struct Timestamp {
    pub year: u16,
    pub month: u8,
    pub day: u8,
    pub hour: u8,
    pub minute: u8,
    pub second: u8,
    /// Seconds since 1970-01-01T00:00:00Z of the instant this wall clock
    /// denotes in the provider's home time zone.
    pub epoch: i64,
}

pub open spec fn is_leap(y: int) -> bool {
    y % 4 == 0 && (y % 100 != 0 || y % 400 == 0)
}

pub open spec fn days_in_month(y: int, m: int) -> int {
    if m == 2 {
        if is_leap(y) {
            29
        } else {
            28
        }
    } else if m == 4 || m == 6 || m == 9 || m == 11 {
        30
    } else {
        31
    }
}

/// Days from 0400-03-01-aligned civil reckoning: the count of days from
/// an era origin chosen so that every value is non-negative, for shifted
/// years `ys = y + 400` with `400 <= ys`.
pub open spec fn shifted_days(ys: int, m: int, d: int) -> int {
    let yy = if m <= 2 {
        ys - 1
    } else {
        ys
    };
    let era = yy / 400;
    let yoe = yy - era * 400;
    let doy = (153 * (if m > 2 {
        m - 3
    } else {
        m + 9
    }) + 2) / 5 + d - 1;
    let doe = yoe * 365 + yoe / 4 - yoe / 100 + doy;
    era * 146097 + doe
}

/// Days since 1970-01-01 of the civil date `y-m-d`.
pub open spec fn civil_days(y: int, m: int, d: int) -> int {
    shifted_days(y + 400, m, d) - 865565
}

/// Index of the weekday of a shifted day count, with Sunday as 0.
pub open spec fn sunday_index(sd: int) -> int {
    (sd + 3) % 7
}

/// Day of month of the last Sunday of March of year `y`.
pub open spec fn last_sunday_of_march(y: int) -> int {
    31 - sunday_index(shifted_days(y + 400, 3, 31))
}

/// Day of month of the last Sunday of October of year `y`.
pub open spec fn last_sunday_of_october(y: int) -> int {
    31 - sunday_index(shifted_days(y + 400, 10, 31))
}

/// A key that orders wall clocks within one year lexicographically by
/// month, day, hour, minute, second.
pub open spec fn local_key(m: int, d: int, h: int, mi: int, s: int) -> int {
    (((m * 32 + d) * 24 + h) * 60 + mi) * 60 + s
}

/// The zone offset, in seconds east of UTC, that the provider's home
/// zone gives to the wall clock `y-m-d h:mi:s`.
pub open spec fn zone_offset(y: int, m: int, d: int, h: int, mi: int, s: int) -> int {
    let k = local_key(m, d, h, mi, s);
    if k >= local_key(3, last_sunday_of_march(y), 2, 0, 0) && k < local_key(
        10,
        last_sunday_of_october(y),
        3,
        0,
        0,
    ) {
        7200
    } else {
        3600
    }
}

/// Seconds since 1970-01-01T00:00:00Z of the wall clock `y-m-d h:mi:s`
/// read in the provider's home zone.
pub open spec fn epoch_of(y: int, m: int, d: int, h: int, mi: int, s: int) -> int {
    civil_days(y, m, d) * 86400 + h * 3600 + mi * 60 + s - zone_offset(y, m, d, h, mi, s)
}

impl Timestamp {
    /// Field ranges, calendar validity, and the derived instant.
    pub open spec fn wf(self) -> bool {
        &&& self.year <= 9999
        &&& 1 <= self.month <= 12
        &&& 1 <= self.day <= days_in_month(self.year as int, self.month as int)
        &&& self.hour <= 23
        &&& self.minute <= 59
        &&& self.second <= 59
        &&& self.epoch == epoch_of(
            self.year as int,
            self.month as int,
            self.day as int,
            self.hour as int,
            self.minute as int,
            self.second as int,
        )
    }
}

/// Exec twin of `shifted_days`.
fn shifted_days_x(ys: u32, m: u32, d: u32) -> (r: u32)
    requires
        400 <= ys <= 10399,
        1 <= m <= 12,
        1 <= d <= 31,
    ensures
        r == shifted_days(ys as int, m as int, d as int),
        r <= 3800000,
{
    let yy: u32 = if m <= 2 {
        ys - 1
    } else {
        ys
    };
    let era: u32 = yy / 400;
    let yoe: u32 = yy - era * 400;
    let mp: u32 = if m > 2 {
        m - 3
    } else {
        m + 9
    };
    let doy: u32 = (153 * mp + 2) / 5 + d - 1;
    let doe: u32 = yoe * 365 + yoe / 4 - yoe / 100 + doy;
    era * 146097 + doe
}

/// Exec twin of `civil_days`.
fn civil_days_x(y: u32, m: u32, d: u32) -> (r: i64)
    requires
        y <= 9999,
        1 <= m <= 12,
        1 <= d <= 31,
    ensures
        r == civil_days(y as int, m as int, d as int),
{
    let sd = shifted_days_x(y + 400, m, d);
    sd as i64 - 865565
}

/// Exec twin of `last_sunday_of_march`.
fn last_sunday_of_march_x(y: u32) -> (r: u32)
    requires
        y <= 9999,
    ensures
        r == last_sunday_of_march(y as int),
{
    let sd = shifted_days_x(y + 400, 3, 31);
    31 - (sd + 3) % 7
}

/// Exec twin of `last_sunday_of_october`.
fn last_sunday_of_october_x(y: u32) -> (r: u32)
    requires
        y <= 9999,
    ensures
        r == last_sunday_of_october(y as int),
{
    let sd = shifted_days_x(y + 400, 10, 31);
    31 - (sd + 3) % 7
}

/// Exec twin of `local_key`.
fn local_key_x(m: u32, d: u32, h: u32, mi: u32, s: u32) -> (r: u32)
    requires
        m <= 12,
        d <= 31,
        h <= 23,
        mi <= 59,
        s <= 59,
    ensures
        r == local_key(m as int, d as int, h as int, mi as int, s as int),
{
    (((m * 32 + d) * 24 + h) * 60 + mi) * 60 + s
}

/// Exec twin of `zone_offset`.
fn zone_offset_x(y: u32, m: u32, d: u32, h: u32, mi: u32, s: u32) -> (r: u32)
    requires
        y <= 9999,
        1 <= m <= 12,
        1 <= d <= 31,
        h <= 23,
        mi <= 59,
        s <= 59,
    ensures
        r == zone_offset(y as int, m as int, d as int, h as int, mi as int, s as int),
{
    let k = local_key_x(m, d, h, mi, s);
    let start_day = last_sunday_of_march_x(y);
    let end_day = last_sunday_of_october_x(y);
    let start = local_key_x(3, start_day, 2, 0, 0);
    let end = local_key_x(10, end_day, 3, 0, 0);
    if k >= start && k < end {
        7200
    } else {
        3600
    }
}

/// Builds the timestamp of the wall clock `y-m-d h:mi:s` in the
/// provider's home zone.
fn make_timestamp(y: u32, m: u32, d: u32, h: u32, mi: u32, s: u32) -> (r: Timestamp)
    requires
        y <= 9999,
        1 <= m <= 12,
        1 <= d <= days_in_month(y as int, m as int),
        h <= 23,
        mi <= 59,
        s <= 59,
    ensures
        r.wf(),
        r.year == y && r.month == m && r.day == d,
        r.hour == h && r.minute == mi && r.second == s,
{
    let days = civil_days_x(y, m, d);
    let off = zone_offset_x(y, m, d, h, mi, s);
    let tod: i64 = h as i64 * 3600 + mi as i64 * 60 + s as i64;
    let epoch: i64 = days * 86400 + tod - off as i64;
    Timestamp {
        year: y as u16,
        month: m as u8,
        day: d as u8,
        hour: h as u8,
        minute: mi as u8,
        second: s as u8,
        epoch,
    }
}

pub open spec fn is_digit(c: char) -> bool {
    48 <= c as u32 && c as u32 <= 57
}

pub open spec fn digit_val(c: char) -> int {
    c as u32 - 48
}

/// The characters of `s` at `[i, i + n)` are all decimal digits.
pub open spec fn digits_at(s: Seq<char>, i: int, n: int) -> bool {
    forall|k: int| i <= k < i + n ==> is_digit(#[trigger] s[k])
}

/// The number read from the `n` digit characters of `s` at `[i, i + n)`.
pub open spec fn num_at(s: Seq<char>, i: int, n: int) -> int
    decreases n,
{
    if n <= 0 {
        0
    } else {
        num_at(s, i, n - 1) * 10 + digit_val(s[i + n - 1])
    }
}

/// What `parse_provider_timestamp` returns: the timestamp of a text in
/// the fixed positional layout, or nothing where the layout or a field
/// range is violated. The separator character at index 8 is ignored.
#[verifier::opaque]
pub open spec fn parse_timestamp_spec(s: Seq<char>) -> Option<Timestamp> {
    if s.len() >= 15 && digits_at(s, 0, 8) && digits_at(s, 9, 6) {
        let y = num_at(s, 0, 4);
        let mo = num_at(s, 4, 2);
        let d = num_at(s, 6, 2);
        let h = num_at(s, 9, 2);
        let mi = num_at(s, 11, 2);
        let sec = num_at(s, 13, 2);
        if 1 <= mo && mo <= 12 && 1 <= d && d <= days_in_month(y, mo) && h <= 23 && mi <= 59
            && sec <= 59 {
            Some(
                Timestamp {
                    year: y as u16,
                    month: mo as u8,
                    day: d as u8,
                    hour: h as u8,
                    minute: mi as u8,
                    second: sec as u8,
                    epoch: epoch_of(y, mo, d, h, mi, sec) as i64,
                },
            )
        } else {
            None
        }
    } else {
        None
    }
}

/// Reads the number in the `len` digit characters of `s` at
/// `[start, start + len)`, or nothing if one of them is not a digit.
fn read_num(s: &str, start: usize, len: usize) -> (r: Option<u32>)
    requires
        start + len <= s@.len(),
        start + len <= 100,
        len <= 4,
    ensures
        match r {
            Some(v) => digits_at(s@, start as int, len as int) && v == num_at(
                s@,
                start as int,
                len as int,
            ) && v <= 9999,
            None => !digits_at(s@, start as int, len as int),
        },
{
    let mut acc: u32 = 0;
    let mut i: usize = 0;
    while i < len
        invariant
            start + len <= s@.len(),
            start + len <= 100,
            len <= 4,
            i <= len,
            digits_at(s@, start as int, i as int),
            acc == num_at(s@, start as int, i as int),
            i == 0 ==> acc == 0,
            i == 1 ==> acc <= 9,
            i == 2 ==> acc <= 99,
            i == 3 ==> acc <= 999,
            i == 4 ==> acc <= 9999,
        decreases len - i,
    {
        let c = s.get_char(start + i);
        let u: u32 = c as u32;
        if u < 48 || u > 57 {
            proof {
                assert(!is_digit(s@[start + i]));
            }
            return None;
        }
        acc = acc * 10 + (u - 48);
        i += 1;
    }
    Some(acc)
}

/// Parses a provider timestamp: at least 15 characters, `YYYYMMDD`, one
/// separator character (ignored, not validated), `HHMMSS`, each slice a
/// number in the valid range of its field, read in the provider's home
/// time zone. Fails with `DateParseError` holding the raw input.
#[verifier::rlimit(60)]
pub fn parse_provider_timestamp(s: &str) -> (r: Result<Timestamp, SncfAPIError>)
    ensures
        match r {
            Ok(t) => parse_timestamp_spec(s@) == Some(t) && t.wf(),
            Err(e) => parse_timestamp_spec(s@) is None && e@ == SncfAPIErrorV::DateParse(s@),
        },
{
    proof {
        reveal(parse_timestamp_spec);
    }
    let n = s.unicode_len();
    if n < 15 {
        return Err(SncfAPIError::DateParseError(String::from_str(s)));
    }
    let y = read_num(s, 0, 4);
    let mo = read_num(s, 4, 2);
    let d = read_num(s, 6, 2);
    let h = read_num(s, 9, 2);
    let mi = read_num(s, 11, 2);
    let sec = read_num(s, 13, 2);
    match (y, mo, d, h, mi, sec) {
        (Some(y), Some(mo), Some(d), Some(h), Some(mi), Some(sec)) => {
            let dim = days_in_month_x(y, mo);
            if 1 <= mo && mo <= 12 && 1 <= d && d <= dim && h <= 23 && mi <= 59 && sec <= 59 {
                let t = make_timestamp(y, mo, d, h, mi, sec);
                proof {
                    assert(digits_at(s@, 0, 8));
                    assert(parse_timestamp_spec(s@) == Some(t));
                }
                Ok(t)
            } else {
                Err(SncfAPIError::DateParseError(String::from_str(s)))
            }
        },
        _ => Err(SncfAPIError::DateParseError(String::from_str(s))),
    }
}

/// Exec twin of `days_in_month`; gives 0 outside the month range so the
/// caller's range check fails there.
fn days_in_month_x(y: u32, m: u32) -> (r: u32)
    ensures
        1 <= m <= 12 ==> r == days_in_month(y as int, m as int),
{
    if m == 2 {
        if y % 4 == 0 && (y % 100 != 0 || y % 400 == 0) {
            29
        } else {
            28
        }
    } else if m == 4 || m == 6 || m == 9 || m == 11 {
        30
    } else if 1 <= m && m <= 12 {
        31
    } else {
        0
    }
}

/// The `"HH:MM"` rendering of a timestamp's wall clock.
pub open spec fn clock_text(t: Timestamp) -> Seq<char> {
    seq![
        digit_char(t.hour as int / 10),
        digit_char(t.hour as int % 10),
        ':',
        digit_char(t.minute as int / 10),
        digit_char(t.minute as int % 10),
    ]
}

/// Renders the wall clock as `"HH:MM"`; display-only.
pub fn format_clock(t: &Timestamp) -> (r: String)
    requires
        t.wf(),
    ensures
        r@ == clock_text(*t),
{
    let h: u64 = t.hour as u64;
    let mi: u64 = t.minute as u64;
    let mut out = String::from_str(digit_str(h / 10));
    out.append(digit_str(h % 10));
    out.append(":");
    out.append(digit_str(mi / 10));
    out.append(digit_str(mi % 10));
    proof {
        reveal_strlit(":");
        assert(out@ =~= clock_text(*t));
    }
    out
}

/// The `"YYYY-MM-DD"` rendering of a timestamp's calendar date.
pub open spec fn date_text(t: Timestamp) -> Seq<char> {
    seq![
        digit_char(t.year as int / 1000),
        digit_char(t.year as int / 100 % 10),
        digit_char(t.year as int / 10 % 10),
        digit_char(t.year as int % 10),
        '-',
        digit_char(t.month as int / 10),
        digit_char(t.month as int % 10),
        '-',
        digit_char(t.day as int / 10),
        digit_char(t.day as int % 10),
    ]
}

/// Renders the calendar date as `"YYYY-MM-DD"`; display-only.
pub fn format_date(t: &Timestamp) -> (r: String)
    requires
        t.wf(),
    ensures
        r@ == date_text(*t),
{
    let y: u64 = t.year as u64;
    let m: u64 = t.month as u64;
    let d: u64 = t.day as u64;
    let mut out = String::from_str(digit_str(y / 1000));
    out.append(digit_str(y / 100 % 10));
    out.append(digit_str(y / 10 % 10));
    out.append(digit_str(y % 10));
    out.append("-");
    out.append(digit_str(m / 10));
    out.append(digit_str(m % 10));
    out.append("-");
    out.append(digit_str(d / 10));
    out.append(digit_str(d % 10));
    proof {
        reveal_strlit("-");
        assert(out@ =~= date_text(*t));
    }
    out
}

/// The elapsed span from `dep` to `arr` in seconds, where it is
/// representable.
pub open spec fn duration_spec(dep: i64, arr: i64) -> Option<i64> {
    if i64::MIN <= arr - dep <= i64::MAX {
        Some((arr - dep) as i64)
    } else {
        None
    }
}

/// The elapsed seconds from the instant `departure` to the instant
/// `arrival`; fails distinctly where the span cannot be represented.
pub fn duration_between(departure: i64, arrival: i64) -> (r: Result<i64, SncfAPIError>)
    ensures
        match r {
            Ok(d) => duration_spec(departure, arrival) == Some(d),
            Err(e) => duration_spec(departure, arrival) is None && e@ == SncfAPIErrorV::Duration,
        },
{
    match arrival.checked_sub(departure) {
        Some(d) => Ok(d),
        None => Err(SncfAPIError::DurationError),
    }
}

/// Parsing a provider timestamp is pure and idempotent: the same text
/// always gives the same zoned instant.
pub proof fn lemma_parse_provider_timestamp_pure(s1: Seq<char>, s2: Seq<char>)
    requires
        s1 == s2,
    ensures
        parse_timestamp_spec(s1) == parse_timestamp_spec(s2),
{
}

} // verus!
