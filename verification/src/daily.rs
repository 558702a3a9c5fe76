//! Aligning arbitrary daily records onto the fixed 7-slot calendar window.
//!
//! The window is the seven local dates starting today. Records without a date
//! are dropped; duplicate dates resolve last-write-wins; missing dates are
//! counted and rendered as "NA" placeholders with the default icon.

use vstd::prelude::*;
use crate::models::{not_available_icon_path, Astronomical, DailyForecast};
use crate::numfmt::{i64_to_string, spec_int_digits};
use crate::timecalc::{hh_mm_string, spec_hh_mm};

verus! {

/// Builds the 7-slot calendar window: today and the six following dates.
pub fn build_window(today: i64) -> (w: Vec<i64>)
    requires
        0 <= today < 3000000,
    ensures
        w@.len() == 7,
        forall|i: int| 0 <= i < 7 ==> w@[i] == today + i,
{
    let mut w: Vec<i64> = Vec::new();
    let mut off: i64 = 0;
    while off < 7
        invariant
            0 <= off <= 7,
            0 <= today < 3000000,
            w@.len() == off,
            forall|i: int| 0 <= i < off ==> w@[i] == today + i,
        decreases 7 - off,
    {
        w.push(today + off);
        off += 1;
    }
    w
}

/// The index of the last record carrying `date`, if any: the
/// last-write-wins resolution of duplicate dates.
pub open spec fn spec_last_match(records: Seq<DailyForecast>, date: int) -> Option<int>
    decreases records.len(),
{
    if records.len() == 0 {
        None
    } else if records.last().date matches Some(d) && d == date {
        Some((records.len() - 1) as int)
    } else {
        spec_last_match(records.drop_last(), date)
    }
}

/// Maps each window date to the index of the record that serves it: the last
/// record bearing that date, or nothing when no record does.
pub fn map_records(records: &Vec<DailyForecast>, window: &Vec<i64>) -> (m: Vec<Option<usize>>)
    ensures
        m@.len() == window@.len(),
        forall|i: int|
            0 <= i < window@.len() ==> ((#[trigger] m@[i]) is Some <==> spec_last_match(
                records@,
                window@[i] as int,
            ) is Some),
        forall|i: int|
            0 <= i < window@.len() && m@[i] is Some ==> Some((#[trigger] m@[i])->0 as int)
                == spec_last_match(records@, window@[i] as int),
        forall|i: int|
            0 <= i < window@.len() && m@[i] is Some ==> (#[trigger] m@[i])->0 < records@.len(),
{
    let mut m: Vec<Option<usize>> = Vec::new();
    let mut i: usize = 0;
    while i < window.len()
        invariant
            i <= window.len(),
            m@.len() == i,
            forall|k: int|
                0 <= k < i ==> ((#[trigger] m@[k]) is Some <==> spec_last_match(
                    records@,
                    window@[k] as int,
                ) is Some),
            forall|k: int|
                0 <= k < i && m@[k] is Some ==> Some((#[trigger] m@[k])->0 as int)
                    == spec_last_match(records@, window@[k] as int),
            forall|k: int|
                0 <= k < i && m@[k] is Some ==> (#[trigger] m@[k])->0 < records@.len(),
        decreases window.len() - i,
    {
        let slot = find_last_match(records, window[i]);
        m.push(slot);
        i += 1;
    }
    m
}

/// Scans the records for the last one bearing `date`.
fn find_last_match(records: &Vec<DailyForecast>, date: i64) -> (r: Option<usize>)
    ensures
        r is Some <==> spec_last_match(records@, date as int) is Some,
        r is Some ==> Some(r->0 as int) == spec_last_match(records@, date as int),
        r is Some ==> r->0 < records@.len(),
{
    let mut r: Option<usize> = None;
    let mut j: usize = 0;
    while j < records.len()
        invariant
            j <= records.len(),
            r is Some <==> spec_last_match(records@.take(j as int), date as int) is Some,
            r is Some ==> Some(r->0 as int) == spec_last_match(records@.take(j as int), date as int),
            r is Some ==> r->0 < j,
        decreases records.len() - j,
    {
        proof {
            assert(records@.take(j + 1).drop_last() =~= records@.take(j as int));
            assert(records@.take(j + 1).last() == records@[j as int]);
        }
        let matches_date = match &records[j].date {
            Some(d) => *d == date,
            None => false,
        };
        if matches_date {
            r = Some(j);
        }
        j += 1;
    }
    proof {
        assert(records@.take(records@.len() as int) =~= records@);
    }
    r
}

/// What one day slot renders: temperatures (or "NA") and an icon.
pub struct DaySummary {
    pub min_temp: String,
    pub max_temp: String,
    pub icon: String,
}

/// The rendering of an optional temperature: its decimal digits, or "NA".
pub open spec fn spec_opt_temp(t: Option<i64>) -> Seq<char> {
    match t {
        Some(v) => spec_int_digits(v as int),
        None => "NA"@,
    }
}

/// The icon of an optional record: the record's own icon, or the
/// not-available icon.
pub open spec fn spec_slot_icon(records: Seq<DailyForecast>, slot: Option<usize>) -> Seq<char> {
    match slot {
        Some(k) => records[k as int].icon@,
        None => "static/weather_icons/not-available.svg"@,
    }
}

/// The minimum-temperature rendering of a slot.
pub open spec fn spec_slot_min(records: Seq<DailyForecast>, slot: Option<usize>) -> Seq<char> {
    match slot {
        Some(k) => spec_opt_temp(records[k as int].temp_min),
        None => "NA"@,
    }
}

/// The maximum-temperature rendering of a slot.
pub open spec fn spec_slot_max(records: Seq<DailyForecast>, slot: Option<usize>) -> Seq<char> {
    match slot {
        Some(k) => spec_opt_temp(records[k as int].temp_max),
        None => "NA"@,
    }
}

/// How many window dates the mapping leaves unserved.
pub open spec fn spec_missing_count(m: Seq<Option<usize>>) -> int
    decreases m.len(),
{
    if m.len() == 0 {
        0
    } else {
        spec_missing_count(m.drop_last()) + if m.last() is None {
            1int
        } else {
            0int
        }
    }
}

fn render_opt_temp(t: &Option<i64>) -> (s: String)
    ensures
        s@ == spec_opt_temp(*t),
{
    match t {
        Some(v) => i64_to_string(*v),
        None => "NA".to_owned(),
    }
}

/// Fills the seven day slots from the mapping: missing dates render "NA"
/// placeholders with the default icon and are counted. The result always has
/// exactly one summary per window slot, and the missing count equals the
/// number of window dates absent from the mapping.
pub fn assign(records: &Vec<DailyForecast>, mapping: &Vec<Option<usize>>) -> (r: (
    Vec<DaySummary>,
    u64,
))
    requires
        forall|i: int|
            0 <= i < mapping@.len() && (#[trigger] mapping@[i]) is Some ==> mapping@[i]->0
                < records@.len(),
        mapping@.len() <= 1000,
    ensures
        r.0@.len() == mapping@.len(),
        forall|i: int|
            0 <= i < mapping@.len() ==> (#[trigger] r.0@[i]).min_temp@ == spec_slot_min(
                records@,
                mapping@[i],
            ),
        forall|i: int|
            0 <= i < mapping@.len() ==> (#[trigger] r.0@[i]).max_temp@ == spec_slot_max(
                records@,
                mapping@[i],
            ),
        forall|i: int|
            0 <= i < mapping@.len() ==> (#[trigger] r.0@[i]).icon@ == spec_slot_icon(
                records@,
                mapping@[i],
            ),
        r.1 as int == spec_missing_count(mapping@),
{
    let mut out: Vec<DaySummary> = Vec::new();
    let mut missing: u64 = 0;
    let mut i: usize = 0;
    while i < mapping.len()
        invariant
            i <= mapping@.len(),
            mapping@.len() <= 1000,
            forall|k: int|
                0 <= k < mapping@.len() && (#[trigger] mapping@[k]) is Some ==> mapping@[k]->0
                    < records@.len(),
            out@.len() == i,
            forall|k: int|
                0 <= k < i ==> (#[trigger] out@[k]).min_temp@ == spec_slot_min(
                    records@,
                    mapping@[k],
                ),
            forall|k: int|
                0 <= k < i ==> (#[trigger] out@[k]).max_temp@ == spec_slot_max(
                    records@,
                    mapping@[k],
                ),
            forall|k: int|
                0 <= k < i ==> (#[trigger] out@[k]).icon@ == spec_slot_icon(records@, mapping@[k]),
            missing as int == spec_missing_count(mapping@.take(i as int)),
            missing <= i,
        decreases mapping.len() - i,
    {
        proof {
            assert(mapping@.take(i + 1).drop_last() =~= mapping@.take(i as int));
            assert(mapping@.take(i + 1).last() == mapping@[i as int]);
        }
        match &mapping[i] {
            Some(k) => {
                let rec = &records[*k];
                out.push(
                    DaySummary {
                        min_temp: render_opt_temp(&rec.temp_min),
                        max_temp: render_opt_temp(&rec.temp_max),
                        icon: rec.icon.as_str().to_owned(),
                    },
                );
            },
            None => {
                missing = missing + 1;
                out.push(
                    DaySummary {
                        min_temp: "NA".to_owned(),
                        max_temp: "NA".to_owned(),
                        icon: not_available_icon_path().to_owned(),
                    },
                );
            },
        }
        i += 1;
    }
    proof {
        assert(mapping@.take(mapping@.len() as int) =~= mapping@);
    }
    (out, missing)
}

/// The minimum-temperature rendering a window date ends up with.
pub open spec fn spec_date_min(records: Seq<DailyForecast>, date: int) -> Seq<char> {
    match spec_last_match(records, date) {
        Some(k) => spec_opt_temp(records[k].temp_min),
        None => "NA"@,
    }
}

/// The maximum-temperature rendering a window date ends up with.
pub open spec fn spec_date_max(records: Seq<DailyForecast>, date: int) -> Seq<char> {
    match spec_last_match(records, date) {
        Some(k) => spec_opt_temp(records[k].temp_max),
        None => "NA"@,
    }
}

/// The icon a window date ends up with.
pub open spec fn spec_date_icon(records: Seq<DailyForecast>, date: int) -> Seq<char> {
    match spec_last_match(records, date) {
        Some(k) => records[k].icon@,
        None => "static/weather_icons/not-available.svg"@,
    }
}

/// Whether a window date has no record serving it.
pub open spec fn spec_date_missing(records: Seq<DailyForecast>, date: int) -> bool {
    spec_last_match(records, date) is None
}

/// How many of the `n` window dates starting at `today` have no record.
pub open spec fn spec_missing_in_window(records: Seq<DailyForecast>, today: int, n: nat) -> int
    decreases n,
{
    if n == 0 {
        0
    } else {
        spec_missing_in_window(records, today, (n - 1) as nat) + if spec_date_missing(
            records,
            today + n - 1,
        ) {
            1int
        } else {
            0int
        }
    }
}

/// At most one date can be missing per window slot.
pub proof fn lemma_missing_in_window_bounds(records: Seq<DailyForecast>, today: int, n: nat)
    ensures
        0 <= spec_missing_in_window(records, today, n) <= n,
    decreases n,
{
    if n > 0 {
        lemma_missing_in_window_bounds(records, today, (n - 1) as nat);
    }
}

/// The per-slot missing count over a mapping agrees with the per-date count,
/// when the mapping was built from the dates.
pub proof fn lemma_missing_count_bridge(
    records: Seq<DailyForecast>,
    mapping: Seq<Option<usize>>,
    today: int,
    n: nat,
)
    requires
        mapping.len() == n,
        forall|i: int|
            0 <= i < n ==> ((#[trigger] mapping[i]) is None <==> spec_date_missing(
                records,
                today + i,
            )),
    ensures
        spec_missing_count(mapping) == spec_missing_in_window(records, today, n),
    decreases n,
{
    if n > 0 {
        let prefix = mapping.drop_last();
        assert(forall|i: int|
            0 <= i < n - 1 ==> ((#[trigger] prefix[i]) is None <==> spec_date_missing(
                records,
                today + i,
            )));
        lemma_missing_count_bridge(records, prefix, today, (n - 1) as nat);
    }
}

/// The `HH:MM` rendering of an optional local sun time, or "NA".
pub open spec fn spec_opt_sun_time(t: Option<i64>) -> Seq<char> {
    match t {
        Some(v) => spec_hh_mm(v as int),
        None => "NA"@,
    }
}

/// Extracts the formatted sunrise and sunset times of today's record; either
/// defaults to "NA" when unknown.
pub fn extract_sun_times(astro: &Option<Astronomical>) -> (r: (String, String))
    requires
        match astro {
            Some(a) => a.wf(),
            None => true,
        },
    ensures
        r.0@ == match astro {
            Some(a) => spec_opt_sun_time(a.sunrise_time),
            None => "NA"@,
        },
        r.1@ == match astro {
            Some(a) => spec_opt_sun_time(a.sunset_time),
            None => "NA"@,
        },
{
    match astro {
        Some(a) => {
            let sunrise = match a.sunrise_time {
                Some(t) => hh_mm_string(t),
                None => "NA".to_owned(),
            };
            let sunset = match a.sunset_time {
                Some(t) => hh_mm_string(t),
                None => "NA".to_owned(),
            };
            (sunrise, sunset)
        },
        None => ("NA".to_owned(), "NA".to_owned()),
    }
}

} // verus!
