//! Calendar and clock arithmetic over plain integer timestamps.
//!
//! Provider times are seconds since the Unix epoch in UTC; local wall-clock
//! values are obtained by adding a fixed offset in seconds. Calendar dates are
//! day numbers (days since the epoch). All display formatting derives from
//! these integers, so timezone handling stays inside verified code.

use vstd::prelude::*;
use crate::numfmt::{spec_digit_char, two_digit_string};

verus! {

/// Seconds per hour.
pub const SECS_PER_HOUR: i64 = 3600;

/// Seconds per day.
pub const SECS_PER_DAY: i64 = 86400;

/// One second past the largest supported timestamp (end of year 9999 UTC).
pub const MAX_TIMESTAMP: i64 = 253402300800;

/// A timestamp the library can do calendar arithmetic on without overflow.
pub open spec fn valid_timestamp(t: int) -> bool {
    0 <= t < MAX_TIMESTAMP
}

/// A plausible fixed UTC offset: strictly within one day, as chrono's
/// `FixedOffset` guarantees of every real timezone offset.
pub open spec fn valid_offset(off: int) -> bool {
    -86400 < off < 86400
}

/// The start of the UTC hour containing `t`.
pub open spec fn spec_hour_floor(t: int) -> int {
    t - t % (SECS_PER_HOUR as int)
}

/// The UTC day number (days since the epoch) containing `t`.
pub open spec fn spec_day_of(t: int) -> int {
    t / (SECS_PER_DAY as int)
}

/// Truncates a timestamp down to the start of its hour.
pub fn hour_floor(t: i64) -> (r: i64)
    requires
        valid_timestamp(t as int),
    ensures
        r == spec_hour_floor(t as int),
        valid_timestamp(r as int),
        r <= t,
{
    t - t % SECS_PER_HOUR
}

/// The day number containing a timestamp.
pub fn day_of(t: i64) -> (r: i64)
    requires
        valid_timestamp(t as int),
    ensures
        r == spec_day_of(t as int),
        0 <= r < 2932897,
{
    t / SECS_PER_DAY
}

/// Local wall-clock seconds for a UTC timestamp under a fixed offset, clamped
/// below at zero so that later day arithmetic stays in range (the clamp can
/// only act within the first day after the epoch).
pub open spec fn spec_local_secs(t: int, off: int) -> int {
    if t + off < 0 {
        0
    } else {
        t + off
    }
}

/// Shifts a UTC timestamp to local wall-clock seconds.
pub fn local_secs(t: i64, off: i32) -> (r: i64)
    requires
        valid_timestamp(t as int),
        valid_offset(off as int),
    ensures
        r == spec_local_secs(t as int, off as int),
        0 <= r < MAX_TIMESTAMP + 86400,
{
    let shifted = t + (off as i64);
    if shifted < 0 {
        0
    } else {
        shifted
    }
}

/// The hour of day (0..24) of a wall-clock seconds value.
pub open spec fn spec_hour_of_day(local: int) -> int {
    (local / (SECS_PER_HOUR as int)) % 24
}

/// The minute of hour (0..60) of a wall-clock seconds value.
pub open spec fn spec_minute_of_hour(local: int) -> int {
    (local / 60) % 60
}

/// The `HH:MM` rendering of a wall-clock seconds value.
pub open spec fn spec_hh_mm(local: int) -> Seq<char> {
    seq![
        spec_digit_char(spec_hour_of_day(local) / 10),
        spec_digit_char(spec_hour_of_day(local) % 10),
        ':',
        spec_digit_char(spec_minute_of_hour(local) / 10),
        spec_digit_char(spec_minute_of_hour(local) % 10),
    ]
}

/// Formats a wall-clock seconds value as `HH:MM`, zero padded.
pub fn hh_mm_string(local: i64) -> (s: String)
    requires
        0 <= local,
    ensures
        s@ == spec_hh_mm(local as int),
{
    let hour = (local / SECS_PER_HOUR) % 24;
    let minute = (local / 60) % 60;
    let mut s = two_digit_string(hour as u64);
    s.append(":");
    let mm = two_digit_string(minute as u64);
    s.append(mm.as_str());
    proof {
        reveal_strlit(":");
        assert(s@ =~= spec_hh_mm(local as int));
    }
    s
}

/// The weekday abbreviation of a day number. Day 0 (1970-01-01) was a
/// Thursday; the table is phased accordingly.
pub open spec fn spec_weekday_abbrev(day: int) -> Seq<char> {
    let w = day % 7;
    if w == 0 {
        "Thu"@
    } else if w == 1 {
        "Fri"@
    } else if w == 2 {
        "Sat"@
    } else if w == 3 {
        "Sun"@
    } else if w == 4 {
        "Mon"@
    } else if w == 5 {
        "Tue"@
    } else {
        "Wed"@
    }
}

/// The weekday abbreviation (`Mon`..`Sun`) for a day number.
pub fn weekday_abbrev(day: i64) -> (r: &'static str)
    requires
        0 <= day,
    ensures
        r@ == spec_weekday_abbrev(day as int),
{
    let w = day % 7;
    match w {
        0 => "Thu",
        1 => "Fri",
        2 => "Sat",
        3 => "Sun",
        4 => "Mon",
        5 => "Tue",
        _ => "Wed",
    }
}

/// The UTC instant of the local midnight following the local day that
/// contains `start`: the boundary between "today" and "tomorrow" slices of a
/// window.
pub open spec fn spec_local_day_end(start: int, off: int) -> int {
    (spec_local_secs(start, off) / 86400 + 1) * 86400 - off
}

/// Computes the local-midnight boundary after `start`.
pub fn local_day_end(start: i64, off: i32) -> (r: i64)
    requires
        valid_timestamp(start as int),
        valid_offset(off as int),
    ensures
        r == spec_local_day_end(start as int, off as int),
        start < r <= start + 2 * 86400,
{
    let local = local_secs(start, off);
    let r = (local / 86400 + 1) * 86400 - (off as i64);
    proof {
        let l = local as int;
        assert(l - 86400 < (l / 86400) * 86400 <= l);
        if start + off >= 0 {
            assert(l == start + off);
        } else {
            assert(l == 0);
            assert(start < 86400);
        }
    }
    r
}

/// A leap year of the Gregorian calendar.
pub open spec fn spec_is_leap_year(y: int) -> bool {
    (y % 4 == 0 && y % 100 != 0) || y % 400 == 0
}

/// The number of days in a month.
pub open spec fn spec_days_in_month(y: int, m: int) -> int {
    if m == 2 {
        if spec_is_leap_year(y) {
            29
        } else {
            28
        }
    } else if m == 4 || m == 6 || m == 9 || m == 11 {
        30
    } else {
        31
    }
}

/// Days from the epoch to the start of year `y`: 365 per year plus one per
/// leap year passed (`n/4 - n/100 + n/400` counts the leap years up to `n`;
/// 477 of them fall before 1970).
pub open spec fn spec_days_before_year(y: int) -> int {
    365 * (y - 1970) + ((y - 1) / 4 - (y - 1) / 100 + (y - 1) / 400) - 477
}

/// Days from the start of year `y` to the start of month `m`.
pub open spec fn spec_days_before_month(y: int, m: int) -> int
    decreases m,
{
    if m <= 1 {
        0
    } else {
        spec_days_before_month(y, m - 1) + spec_days_in_month(y, m - 1)
    }
}

/// The day number of a calendar date.
pub open spec fn spec_day_number(y: int, m: int, d: int) -> int {
    spec_days_before_year(y) + spec_days_before_month(y, m) + (d - 1)
}

/// The UTC timestamp of a calendar date and time of day.
pub open spec fn spec_civil_timestamp(y: int, m: int, d: int, h: int, mi: int, s: int) -> int {
    spec_day_number(y, m, d) * 86400 + h * 3600 + mi * 60 + s
}

fn days_in_month(y: i64, m: i64) -> (r: i64)
    requires
        1970 <= y <= 9999,
        1 <= m <= 12,
    ensures
        r == spec_days_in_month(y as int, m as int),
        28 <= r <= 31,
{
    if m == 2 {
        if (y % 4 == 0 && y % 100 != 0) || y % 400 == 0 {
            29
        } else {
            28
        }
    } else if m == 4 || m == 6 || m == 9 || m == 11 {
        30
    } else {
        31
    }
}

fn days_before_month(y: i64, m: i64) -> (r: i64)
    requires
        1970 <= y <= 9999,
        1 <= m <= 12,
    ensures
        r == spec_days_before_month(y as int, m as int),
        0 <= r <= 31 * (m - 1),
    decreases m,
{
    if m <= 1 {
        0
    } else {
        let rest = days_before_month(y, m - 1);
        rest + days_in_month(y, m - 1)
    }
}

/// Cumulative days never shrink as the month advances.
proof fn lemma_days_before_month_le(y: int, m: int)
    requires
        1 <= m <= 13,
    ensures
        spec_days_before_month(y, m) <= spec_days_before_month(y, 13),
    decreases 13 - m,
{
    if m < 13 {
        assert(spec_days_before_month(y, m + 1) == spec_days_before_month(y, m)
            + spec_days_in_month(y, m));
        assert(spec_days_in_month(y, m) >= 28);
        lemma_days_before_month_le(y, m + 1);
    }
}

/// A full year holds 365 days, 366 in a leap year.
proof fn lemma_year_length(y: int)
    ensures
        spec_days_before_month(y, 13) == 365 + if spec_is_leap_year(y) {
            1int
        } else {
            0int
        },
{
    reveal_with_fuel(spec_days_before_month, 14);
}

/// The UTC timestamp of a calendar date and time of day, for any date of the
/// supported years.
pub fn civil_timestamp(y: i64, m: i64, d: i64, h: i64, mi: i64, s: i64) -> (r: i64)
    requires
        1970 <= y <= 9999,
        1 <= m <= 12,
        1 <= d <= spec_days_in_month(y as int, m as int),
        0 <= h <= 23,
        0 <= mi <= 59,
        0 <= s <= 59,
    ensures
        r == spec_civil_timestamp(y as int, m as int, d as int, h as int, mi as int, s as int),
        valid_timestamp(r as int),
{
    let before_year = 365 * (y - 1970) + ((y - 1) / 4 - (y - 1) / 100 + (y - 1) / 400) - 477;
    proof {
        assert((y - 1) / 4 >= 492);
        assert((y - 1) / 100 >= 19);
        assert((y - 1) / 400 >= 4);
        assert((y - 1) / 4 <= 2499);
        assert((y - 1) / 100 <= 99);
        assert((y - 1) / 400 <= 24);
    }
    let days = before_year + days_before_month(y, m) + (d - 1);
    proof {
        lemma_days_before_month_le(y as int, m as int + 1);
        lemma_year_length(y as int);
        assert(spec_days_before_month(y as int, m as int + 1) == spec_days_before_month(
            y as int,
            m as int,
        ) + spec_days_in_month(y as int, m as int));
        // the last supported day: within the year, the date stays below the
        // year's length; the largest year is not a leap year
        if y == 9999 {
            assert(!spec_is_leap_year(9999));
            assert(before_year == 2932532);
        }
        assert(0 <= days <= 2932896);
    }
    let r = days * 86400 + h * 3600 + mi * 60 + s;
    r
}

/// A decimal digit character.
pub open spec fn spec_is_digit(c: char) -> bool {
    '0' <= c && c <= '9'
}

/// The value of a decimal digit character.
pub open spec fn spec_digit_val(c: char) -> int {
    c as int - 48
}

/// The value of the digit run `s[i..j)`.
pub open spec fn spec_num(s: Seq<char>, i: int, j: int) -> int
    decreases j - i,
{
    if j <= i {
        0
    } else {
        spec_num(s, i, j - 1) * 10 + spec_digit_val(s[j - 1])
    }
}

/// The fixed shape `YYYY-MM-DDTHH:MM:SSZ`: 20 characters, digits and
/// separators in their places.
pub open spec fn spec_timestamp_shape(s: Seq<char>) -> bool {
    &&& s.len() == 20
    &&& s[4] == '-'
    &&& s[7] == '-'
    &&& s[10] == 'T'
    &&& s[13] == ':'
    &&& s[16] == ':'
    &&& s[19] == 'Z'
    &&& forall|i: int|
        0 <= i < 20 && i != 4 && i != 7 && i != 10 && i != 13 && i != 16 && i != 19
            ==> spec_is_digit(#[trigger] s[i])
}

/// The fields of a well-shaped timestamp string.
pub open spec fn spec_ts_year(s: Seq<char>) -> int {
    spec_num(s, 0, 4)
}

pub open spec fn spec_ts_month(s: Seq<char>) -> int {
    spec_num(s, 5, 7)
}

pub open spec fn spec_ts_day(s: Seq<char>) -> int {
    spec_num(s, 8, 10)
}

pub open spec fn spec_ts_hour(s: Seq<char>) -> int {
    spec_num(s, 11, 13)
}

pub open spec fn spec_ts_minute(s: Seq<char>) -> int {
    spec_num(s, 14, 16)
}

pub open spec fn spec_ts_second(s: Seq<char>) -> int {
    spec_num(s, 17, 19)
}

/// A parseable UTC timestamp string: well shaped, with every field in
/// calendar range.
pub open spec fn spec_valid_timestamp_text(s: Seq<char>) -> bool {
    &&& spec_timestamp_shape(s)
    &&& 1970 <= spec_ts_year(s) <= 9999
    &&& 1 <= spec_ts_month(s) <= 12
    &&& 1 <= spec_ts_day(s) <= spec_days_in_month(spec_ts_year(s), spec_ts_month(s))
    &&& spec_ts_hour(s) <= 23
    &&& spec_ts_minute(s) <= 59
    &&& spec_ts_second(s) <= 59
}

/// The timestamp a parseable string denotes.
pub open spec fn spec_parsed_timestamp(s: Seq<char>) -> int {
    spec_civil_timestamp(
        spec_ts_year(s),
        spec_ts_month(s),
        spec_ts_day(s),
        spec_ts_hour(s),
        spec_ts_minute(s),
        spec_ts_second(s),
    )
}

fn digit_at(s: &str, i: usize) -> (r: Option<i64>)
    requires
        s.is_ascii(),
        i < s@.len(),
    ensures
        r is Some <==> spec_is_digit(s@[i as int]),
        r is Some ==> r->0 == spec_digit_val(s@[i as int]) && 0 <= r->0 <= 9,
{
    let c = s.get_char(i);
    if '0' <= c && c <= '9' {
        Some((c as u8 - 48) as i64)
    } else {
        None
    }
}

fn num2_at(s: &str, i: usize) -> (r: Option<i64>)
    requires
        s.is_ascii(),
        i + 2 <= s@.len(),
        i <= 100,
    ensures
        r is Some <==> spec_is_digit(s@[i as int]) && spec_is_digit(s@[i + 1]),
        r is Some ==> r->0 == spec_num(s@, i as int, i + 2) && 0 <= r->0 <= 99,
{
    let a = digit_at(s, i);
    let b = digit_at(s, i + 1);
    proof {
        reveal_with_fuel(spec_num, 3);
    }
    match (a, b) {
        (Some(x), Some(y)) => Some(x * 10 + y),
        _ => None,
    }
}

fn num4_at(s: &str, i: usize) -> (r: Option<i64>)
    requires
        s.is_ascii(),
        i + 4 <= s@.len(),
        i <= 98,
    ensures
        r is Some <==> spec_is_digit(s@[i as int]) && spec_is_digit(s@[i + 1]) && spec_is_digit(
            s@[i + 2],
        ) && spec_is_digit(s@[i + 3]),
        r is Some ==> r->0 == spec_num(s@, i as int, i + 4) && 0 <= r->0 <= 9999,
{
    let a = num2_at(s, i);
    let b = num2_at(s, i + 2);
    proof {
        reveal_with_fuel(spec_num, 5);
    }
    match (a, b) {
        (Some(x), Some(y)) => Some(x * 100 + y),
        _ => None,
    }
}

/// Parses a `YYYY-MM-DDTHH:MM:SSZ` timestamp: accepted exactly when the
/// string has that shape with every field in calendar range, and the result
/// is then the UTC timestamp the string denotes.
pub fn parse_utc_timestamp(s: &str) -> (r: Option<i64>)
    ensures
        r is Some <==> spec_valid_timestamp_text(s@),
        r matches Some(t) ==> t == spec_parsed_timestamp(s@) && valid_timestamp(t as int),
{
    if !s.is_ascii() {
        proof {
            if spec_valid_timestamp_text(s@) {
                assert forall|i: int| 0 <= i < s@.len() implies (#[trigger] s@[i]) < 128 by {
                    if i == 4 || i == 7 {
                        assert(s@[i] == '-');
                    } else if i == 10 {
                        assert(s@[i] == 'T');
                    } else if i == 13 || i == 16 {
                        assert(s@[i] == ':');
                    } else if i == 19 {
                        assert(s@[i] == 'Z');
                    } else {
                        assert(spec_is_digit(s@[i]));
                    }
                }
            }
        }
        return None;
    }
    if s.unicode_len() != 20 {
        return None;
    }
    if s.get_char(4) != '-' || s.get_char(7) != '-' || s.get_char(10) != 'T' || s.get_char(13)
        != ':' || s.get_char(16) != ':' || s.get_char(19) != 'Z' {
        return None;
    }
    let year = match num4_at(s, 0) {
        Some(v) => v,
        None => {
            return None;
        },
    };
    let month = match num2_at(s, 5) {
        Some(v) => v,
        None => {
            return None;
        },
    };
    let day = match num2_at(s, 8) {
        Some(v) => v,
        None => {
            return None;
        },
    };
    let hour = match num2_at(s, 11) {
        Some(v) => v,
        None => {
            return None;
        },
    };
    let minute = match num2_at(s, 14) {
        Some(v) => v,
        None => {
            return None;
        },
    };
    let second = match num2_at(s, 17) {
        Some(v) => v,
        None => {
            return None;
        },
    };
    proof {
        assert(spec_timestamp_shape(s@));
    }
    if year < 1970 || year > 9999 {
        return None;
    }
    if month < 1 || month > 12 {
        return None;
    }
    if day < 1 || day > days_in_month(year, month) {
        return None;
    }
    if hour > 23 || minute > 59 || second > 59 {
        return None;
    }
    Some(civil_timestamp(year, month, day, hour, minute, second))
}

} // verus!
