//! The clock abstraction: "now" in UTC plus the local UTC offset.
//!
//! No other component reads system time. A clock is a plain value — a UTC
//! timestamp and a fixed offset — so every time-dependent computation is
//! verified for any instant. The system variant reads the machine clock and
//! timezone once; a fixed clock is built from an explicit timestamp for
//! deterministic simulation.
//!
//! The offset is fixed for the run: a daylight-saving transition inside a
//! 24h window keeps the offset that held at the clock's instant, so the
//! local-midnight boundary can sit an hour from that day's wall-clock
//! midnight.

use vstd::prelude::*;
use core::fmt::Write;
use crate::timecalc::{
    local_secs, parse_utc_timestamp, spec_local_secs, spec_parsed_timestamp,
    spec_valid_timestamp_text, valid_offset, valid_timestamp, MAX_TIMESTAMP,
};

verus! {

/// What chrono renders for a timestamp, offset and strftime pattern. The
/// rendering is a function of these three values alone.
pub uninterp spec fn chrono_format_of(utc_secs: int, offset_secs: int, fmt: Seq<char>) -> Seq<
    char,
>;

/// Whether chrono can render a strftime pattern at all. For a date, a time
/// and an offset — all of which a `DateTime<FixedOffset>` always supplies —
/// success depends on the pattern's items alone: every failure arm of
/// chrono's formatter is "insufficient arguments" for an item kind, never a
/// value.
pub uninterp spec fn chrono_accepts(fmt: Seq<char>) -> bool;

/// Relies on `std::time::SystemTime::now` for the current instant (an `Err`
/// before the epoch, never a panic) and on chrono's
/// `Local.offset_from_utc_datetime` for the machine's UTC offset at that
/// instant. Nothing is promised of the instant; the offset is strictly
/// within one day, as chrono's `FixedOffset` guarantees of every offset it
/// constructs.
#[verifier::external_body]
fn read_system_clock() -> (r: Option<(i64, i32)>)
    ensures
        r matches Some(p) ==> -86400 < p.1 < 86400,
{
    let elapsed = std::time::SystemTime::now().duration_since(std::time::UNIX_EPOCH).ok()?;
    let secs = i64::try_from(elapsed.as_secs()).ok()?;
    let naive = chrono::DateTime::from_timestamp(secs, 0)?.naive_utc();
    let offset = chrono::TimeZone::offset_from_utc_datetime(&chrono::Local, &naive);
    Some((secs, offset.local_minus_utc()))
}

/// Relies on chrono's `DateTime::format` over a `FixedOffset` zone, rendered
/// through `Display` into an owned buffer: a successful rendering is a
/// function of the timestamp, offset and pattern alone, and whether
/// rendering succeeds depends on the pattern alone. A pattern chrono cannot
/// render — an unknown specifier, or a parse-only one — comes back as the
/// formatter's error and is reported as `None`, never a panic.
#[verifier::external_body]
fn chrono_format(utc_secs: i64, offset_secs: i32, fmt: &str) -> (r: Option<String>)
    requires
        valid_timestamp(utc_secs as int),
        valid_offset(offset_secs as int),
    ensures
        r is Some <==> chrono_accepts(fmt@),
        r matches Some(s) ==> s@ == chrono_format_of(utc_secs as int, offset_secs as int, fmt@),
{
    let offset = chrono::FixedOffset::east_opt(offset_secs)?;
    let dt = chrono::DateTime::from_timestamp(utc_secs, 0)?.with_timezone(&offset);
    let mut out = String::new();
    match write!(out, "{}", dt.format(fmt)) {
        Ok(()) => Some(out),
        Err(_) => None,
    }
}

/// A point in time with the local timezone's fixed UTC offset.
pub struct Clock {
    now_utc: i64,
    local_offset: i32,
}

impl Clock {
    /// A clock always holds a calendar-range timestamp and a real offset.
    #[verifier::type_invariant]
    pub closed spec fn inv(&self) -> bool {
        valid_timestamp(self.now_utc as int) && valid_offset(self.local_offset as int)
    }

    /// The instant this clock reports, in UTC seconds.
    pub closed spec fn spec_now_utc(&self) -> int {
        self.now_utc as int
    }

    /// The local offset this clock reports, in seconds east of UTC.
    pub closed spec fn spec_offset(&self) -> int {
        self.local_offset as int
    }

    /// A fixed clock for a given instant and offset; rejected exactly when
    /// either is out of range.
    pub fn fixed(now_utc: i64, local_offset: i32) -> (r: Option<Clock>)
        ensures
            r is Some <==> valid_timestamp(now_utc as int) && valid_offset(local_offset as int),
            r matches Some(c) ==> c.spec_now_utc() == now_utc && c.spec_offset() == local_offset,
    {
        if 0 <= now_utc && now_utc < MAX_TIMESTAMP && -86400 < local_offset && local_offset
            < 86400 {
            Some(Clock { now_utc, local_offset })
        } else {
            None
        }
    }

    /// A fixed clock parsed from a `YYYY-MM-DDTHH:MM:SSZ` timestamp;
    /// rejected exactly when the text does not parse or the offset is out of
    /// range.
    pub fn from_rfc3339(s: &str, local_offset: i32) -> (r: Option<Clock>)
        ensures
            r is Some <==> spec_valid_timestamp_text(s@) && valid_offset(local_offset as int),
            r matches Some(c) ==> c.spec_now_utc() == spec_parsed_timestamp(s@) && c.spec_offset()
                == local_offset,
    {
        match parse_utc_timestamp(s) {
            Some(t) => Self::fixed(t, local_offset),
            None => None,
        }
    }

    /// A clock reading the system time once; rejected only when the machine
    /// reports an instant outside the supported calendar range.
    pub fn system() -> (r: Option<Clock>)
        ensures
            r matches Some(c) ==> valid_timestamp(c.spec_now_utc()) && valid_offset(
                c.spec_offset(),
            ),
    {
        match read_system_clock() {
            Some((now, offset)) => Self::fixed(now, offset),
            None => None,
        }
    }

    /// The current instant in UTC seconds.
    pub fn now_utc(&self) -> (r: i64)
        ensures
            r as int == self.spec_now_utc(),
            valid_timestamp(r as int),
    {
        proof {
            use_type_invariant(&*self);
        }
        self.now_utc
    }

    /// The local UTC offset in seconds.
    pub fn offset(&self) -> (r: i32)
        ensures
            r as int == self.spec_offset(),
            valid_offset(r as int),
    {
        proof {
            use_type_invariant(&*self);
        }
        self.local_offset
    }

    /// The current local wall-clock seconds.
    pub fn now_local(&self) -> (r: i64)
        ensures
            r as int == spec_local_secs(self.spec_now_utc(), self.spec_offset()),
            0 <= r < MAX_TIMESTAMP + 86400,
    {
        proof {
            use_type_invariant(&*self);
        }
        local_secs(self.now_utc, self.local_offset)
    }

    /// Formats the current instant in local time with a strftime pattern, as
    /// chrono renders it; `None` exactly when chrono rejects the pattern.
    pub fn format_local(&self, fmt: &str) -> (r: Option<String>)
        ensures
            r is Some <==> chrono_accepts(fmt@),
            r matches Some(s) ==> s@ == chrono_format_of(
                self.spec_now_utc(),
                self.spec_offset(),
                fmt@,
            ),
    {
        proof {
            use_type_invariant(&*self);
        }
        chrono_format(self.now_utc, self.local_offset, fmt)
    }
}

} // verus!
