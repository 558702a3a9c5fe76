//! Locating the 24-hour forecast window and binning its records.
//!
//! The window starts at the first record at or after the current UTC hour —
//! but only if that record still belongs to today's UTC date; a gap spanning
//! midnight yields no window rather than a misaligned one. In-window records
//! are binned in order onto hour offsets 0..23; anything beyond the fixed
//! 24-slot curves is dropped.

use vstd::prelude::*;
use crate::aggregate::Sample;
use crate::clock::Clock;
use crate::models::HourlyForecast;
use crate::timecalc::{hour_floor, day_of, spec_day_of, spec_hour_floor};

verus! {

/// Every record is well formed.
pub open spec fn spec_hourly_wf(s: Seq<HourlyForecast>) -> bool {
    forall|i: int| 0 <= i < s.len() ==> (#[trigger] s[i]).wf()
}

/// `i` is the first index whose record's time is at or after `cur`.
pub open spec fn spec_first_index_at_or_after(s: Seq<HourlyForecast>, cur: int, i: int) -> bool {
    &&& 0 <= i < s.len()
    &&& s[i].time >= cur
    &&& forall|k: int| 0 <= k < i ==> (#[trigger] s[k]).time < cur
}

/// Locates the 24h UTC window relevant to "now": it starts at the first
/// record at or after the current hour, provided that record's UTC date is
/// still today's; otherwise there is no usable window. A window, when found,
/// spans exactly 24 hours.
pub fn find_forecast_window(records: &Vec<HourlyForecast>, clock: &Clock) -> (r: Option<
    (i64, i64),
>)
    requires
        spec_hourly_wf(records@),
    ensures
        r is Some <==> exists|i: int|
            spec_first_index_at_or_after(
                records@,
                spec_hour_floor(clock.spec_now_utc()),
                i,
            ) && spec_day_of(records@[i].time as int) == spec_day_of(clock.spec_now_utc()),
        r matches Some(w) ==> exists|i: int|
            {
                &&& spec_first_index_at_or_after(records@, spec_hour_floor(clock.spec_now_utc()), i)
                &&& w.0 == records@[i].time
                &&& spec_day_of(w.0 as int) == spec_day_of(clock.spec_now_utc())
                &&& w.1 == w.0 + 86400
            },
{
    let now = clock.now_utc();
    let current_hour = hour_floor(now);
    let today = day_of(now);
    let mut j: usize = 0;
    while j < records.len()
        invariant
            j <= records@.len(),
            spec_hourly_wf(records@),
            current_hour == spec_hour_floor(clock.spec_now_utc()),
            today == spec_day_of(clock.spec_now_utc()),
            forall|k: int| 0 <= k < j ==> (#[trigger] records@[k]).time < current_hour,
        decreases records.len() - j,
    {
        let rec = &records[j];
        if rec.time >= current_hour {
            // the nearest future record: usable only if it is still today
            assert(rec.wf());
            proof {
                assert(spec_first_index_at_or_after(
                    records@,
                    spec_hour_floor(clock.spec_now_utc()),
                    j as int,
                ));
            }
            if day_of(rec.time) == today {
                let start = rec.time;
                return Some((start, start + 86400));
            } else {
                proof {
                    assert forall|i: int|
                        !(spec_first_index_at_or_after(
                            records@,
                            spec_hour_floor(clock.spec_now_utc()),
                            i,
                        ) && spec_day_of(records@[i].time as int) == spec_day_of(
                            clock.spec_now_utc(),
                        )) by {
                        if spec_first_index_at_or_after(
                            records@,
                            spec_hour_floor(clock.spec_now_utc()),
                            i,
                        ) {
                            assert(i == j);
                        }
                    }
                }
                return None;
            }
        }
        j += 1;
    }
    None
}

/// Membership of a record in the half-open window.
pub open spec fn spec_in_window(h: HourlyForecast, start: int, end: int) -> bool {
    start <= h.time < end
}

/// The in-window records, in order.
pub open spec fn spec_window_records(s: Seq<HourlyForecast>, start: int, end: int) -> Seq<
    HourlyForecast,
> {
    s.filter(|h: HourlyForecast| spec_in_window(h, start, end))
}

/// The per-hour numeric curves handed to the graph renderer: one point per
/// in-window record, in order, capped at the 24 slots of the fixed buffers.
pub struct BinnedCurves {
    /// Temperature per hour offset.
    pub temperature: Vec<i64>,
    /// Apparent temperature per hour offset.
    pub apparent: Vec<i64>,
    /// Rain chance per hour offset (absent chances bin as zero).
    pub rain_chance: Vec<i64>,
    /// UV index per hour offset.
    pub uv: Vec<u64>,
}

/// The rain chance a record bins as: the chance, or zero when absent.
pub open spec fn spec_chance_or_zero(h: HourlyForecast) -> int {
    match h.precipitation.chance {
        Some(c) => c as int,
        None => 0,
    }
}

/// The binned curves represent the first records of the window, one entry
/// per in-window record up to the 24-slot cap.
pub open spec fn spec_binned_to(r: BinnedCurves, s: Seq<HourlyForecast>, start: int, end: int) -> bool {
    let w = spec_window_records(s, start, end);
    let n = if w.len() <= 24 {
        w.len() as int
    } else {
        24
    };
    &&& r.temperature@.len() == n
    &&& r.apparent@.len() == n
    &&& r.rain_chance@.len() == n
    &&& r.uv@.len() == n
    &&& forall|j: int| 0 <= j < n ==> r.temperature@[j] == (#[trigger] w[j]).temperature
    &&& forall|j: int| 0 <= j < n ==> r.apparent@[j] == (#[trigger] w[j]).apparent_temperature
    &&& forall|j: int| 0 <= j < n ==> r.rain_chance@[j] as int == spec_chance_or_zero(#[trigger] w[j])
    &&& forall|j: int| 0 <= j < n ==> r.uv@[j] == (#[trigger] w[j]).uv_index
}

/// Bins the in-window records, in order, onto hour offsets. All four curves
/// hold one entry per in-window record up to the 24-slot cap; records beyond
/// the cap are dropped.
pub fn bin_hourly(records: &Vec<HourlyForecast>, start: i64, end: i64) -> (r: BinnedCurves)
    requires
        spec_hourly_wf(records@),
    ensures
        spec_binned_to(r, records@, start as int, end as int),
{
    let ghost pred = |h: HourlyForecast| spec_in_window(h, start as int, end as int);
    let mut temperature: Vec<i64> = Vec::new();
    let mut apparent: Vec<i64> = Vec::new();
    let mut rain_chance: Vec<i64> = Vec::new();
    let mut uv: Vec<u64> = Vec::new();
    let mut count: usize = 0;
    let mut i: usize = 0;
    while i < records.len()
        invariant
            i <= records@.len(),
            spec_hourly_wf(records@),
            pred == (|h: HourlyForecast| spec_in_window(h, start as int, end as int)),
            count == records@.take(i as int).filter(pred).len(),
            count <= i,
            ({
                let w = records@.take(i as int).filter(pred);
                let n = if w.len() <= 24 {
                    w.len() as int
                } else {
                    24
                };
                &&& temperature@.len() == n
                &&& apparent@.len() == n
                &&& rain_chance@.len() == n
                &&& uv@.len() == n
                &&& forall|j: int| 0 <= j < n ==> temperature@[j] == (#[trigger] w[j]).temperature
                &&& forall|j: int|
                    0 <= j < n ==> apparent@[j] == (#[trigger] w[j]).apparent_temperature
                &&& forall|j: int|
                    0 <= j < n ==> rain_chance@[j] as int == spec_chance_or_zero(#[trigger] w[j])
                &&& forall|j: int| 0 <= j < n ==> uv@[j] == (#[trigger] w[j]).uv_index
            }),
        decreases records.len() - i,
    {
        proof {
            assert(records@.take(i + 1) =~= records@.take(i as int).push(records@[i as int]));
            records@.take(i as int).lemma_filter_push(records@[i as int], pred);
        }
        let rec = &records[i];
        if rec.time >= start && rec.time < end {
            if count < 24 {
                temperature.push(rec.temperature);
                apparent.push(rec.apparent_temperature);
                let chance: i64 = match &rec.precipitation.chance {
                    Some(c) => *c as i64,
                    None => 0,
                };
                rain_chance.push(chance);
                uv.push(rec.uv_index);
            }
            count += 1;
        }
        i += 1;
    }
    proof {
        assert(records@.take(records@.len() as int) =~= records@);
    }
    BinnedCurves { temperature, apparent, rain_chance, uv }
}

/// The first in-window record, if any: the record that populates the
/// "current hour" fields.
pub fn first_in_window<'a>(records: &'a Vec<HourlyForecast>, start: i64, end: i64) -> (r: Option<
    &'a HourlyForecast,
>)
    ensures
        r is Some <==> spec_window_records(records@, start as int, end as int).len() > 0,
        r matches Some(h) ==> *h == spec_window_records(records@, start as int, end as int)[0],
        r matches Some(h) ==> exists|i: int| 0 <= i < records@.len() && records@[i] == *h,
{
    let ghost pred = |h: HourlyForecast| spec_in_window(h, start as int, end as int);
    let mut i: usize = 0;
    while i < records.len()
        invariant
            i <= records@.len(),
            pred == (|h: HourlyForecast| spec_in_window(h, start as int, end as int)),
            records@.take(i as int).filter(pred).len() == 0,
        decreases records.len() - i,
    {
        proof {
            assert(records@.take(i + 1) =~= records@.take(i as int).push(records@[i as int]));
            records@.take(i as int).lemma_filter_push(records@[i as int], pred);
        }
        let rec = &records[i];
        if rec.time >= start && rec.time < end {
            proof {
                crate::seqfacts::lemma_filter_first_match(records@, pred, i as int);
                assert(records@[i as int] == *rec);
            }
            return Some(rec);
        }
        i += 1;
    }
    proof {
        assert(records@.take(records@.len() as int) =~= records@);
    }
    None
}

/// The wind series: each record's time with the gust or sustained speed.
pub open spec fn spec_wind_samples(s: Seq<HourlyForecast>, use_gust: bool) -> Seq<Sample> {
    s.map_values(
        |h: HourlyForecast|
            Sample {
                time: h.time,
                value: if use_gust {
                    h.wind.gust as i64
                } else {
                    h.wind.speed as i64
                },
            },
    )
}

/// The UV series: each record's time with its UV index.
pub open spec fn spec_uv_samples(s: Seq<HourlyForecast>) -> Seq<Sample> {
    s.map_values(|h: HourlyForecast| Sample { time: h.time, value: h.uv_index as i64 })
}

/// The humidity series: each record's time with its relative humidity.
pub open spec fn spec_humidity_samples(s: Seq<HourlyForecast>) -> Seq<Sample> {
    s.map_values(|h: HourlyForecast| Sample { time: h.time, value: h.relative_humidity as i64 })
}

/// The rain series: each record's time with the midpoint of its forecast
/// rain range.
pub open spec fn spec_rain_samples(s: Seq<HourlyForecast>) -> Seq<Sample> {
    s.map_values(
        |h: HourlyForecast|
            Sample {
                time: h.time,
                value: crate::models::spec_precip_median(h.precipitation) as i64,
            },
    )
}

/// Projects the series for wind aggregation: each record's time with the
/// gust or sustained speed, as configured.
pub fn wind_samples(records: &Vec<HourlyForecast>, use_gust: bool) -> (r: Vec<Sample>)
    requires
        spec_hourly_wf(records@),
    ensures
        r@ == spec_wind_samples(records@, use_gust),
        crate::aggregate::spec_samples_wf(r@),
{
    let mut r: Vec<Sample> = Vec::new();
    let mut i: usize = 0;
    while i < records.len()
        invariant
            i <= records@.len(),
            spec_hourly_wf(records@),
            r@.len() == i,
            forall|k: int| 0 <= k < i ==> (#[trigger] r@[k]).time == records@[k].time,
            forall|k: int|
                0 <= k < i ==> (#[trigger] r@[k]).value == (if use_gust {
                    records@[k].wind.gust as int
                } else {
                    records@[k].wind.speed as int
                }),
            forall|k: int| 0 <= k < i ==> 0 <= (#[trigger] r@[k]).value <= 1000000,
        decreases records.len() - i,
    {
        let rec = &records[i];
        assert(rec.wf());
        let value = rec.wind.get_speed(use_gust) as i64;
        r.push(Sample { time: rec.time, value });
        i += 1;
    }
    proof {
        assert(r@ =~= spec_wind_samples(records@, use_gust));
    }
    r
}

/// Projects the series for UV aggregation.
pub fn uv_samples(records: &Vec<HourlyForecast>) -> (r: Vec<Sample>)
    requires
        spec_hourly_wf(records@),
    ensures
        r@ == spec_uv_samples(records@),
        crate::aggregate::spec_samples_wf(r@),
{
    let mut r: Vec<Sample> = Vec::new();
    let mut i: usize = 0;
    while i < records.len()
        invariant
            i <= records@.len(),
            spec_hourly_wf(records@),
            r@.len() == i,
            forall|k: int| 0 <= k < i ==> (#[trigger] r@[k]).time == records@[k].time,
            forall|k: int| 0 <= k < i ==> (#[trigger] r@[k]).value == records@[k].uv_index,
            forall|k: int| 0 <= k < i ==> 0 <= (#[trigger] r@[k]).value <= 1000000,
        decreases records.len() - i,
    {
        let rec = &records[i];
        assert(rec.wf());
        r.push(Sample { time: rec.time, value: rec.uv_index as i64 });
        i += 1;
    }
    proof {
        assert(r@ =~= spec_uv_samples(records@));
    }
    r
}

/// Projects the series for relative-humidity aggregation.
pub fn humidity_samples(records: &Vec<HourlyForecast>) -> (r: Vec<Sample>)
    requires
        spec_hourly_wf(records@),
    ensures
        r@ == spec_humidity_samples(records@),
        crate::aggregate::spec_samples_wf(r@),
{
    let mut r: Vec<Sample> = Vec::new();
    let mut i: usize = 0;
    while i < records.len()
        invariant
            i <= records@.len(),
            spec_hourly_wf(records@),
            r@.len() == i,
            forall|k: int| 0 <= k < i ==> (#[trigger] r@[k]).time == records@[k].time,
            forall|k: int| 0 <= k < i ==> (#[trigger] r@[k]).value == records@[k].relative_humidity,
            forall|k: int| 0 <= k < i ==> 0 <= (#[trigger] r@[k]).value <= 1000000,
        decreases records.len() - i,
    {
        let rec = &records[i];
        assert(rec.wf());
        r.push(Sample { time: rec.time, value: rec.relative_humidity as i64 });
        i += 1;
    }
    proof {
        assert(r@ =~= spec_humidity_samples(records@));
    }
    r
}

/// Projects the series for the rain total: each record's time with the
/// midpoint of its forecast rain range.
pub fn rain_median_samples(records: &Vec<HourlyForecast>) -> (r: Vec<Sample>)
    requires
        spec_hourly_wf(records@),
    ensures
        r@ == spec_rain_samples(records@),
        crate::aggregate::spec_samples_wf(r@),
{
    let mut r: Vec<Sample> = Vec::new();
    let mut i: usize = 0;
    while i < records.len()
        invariant
            i <= records@.len(),
            spec_hourly_wf(records@),
            r@.len() == i,
            forall|k: int| 0 <= k < i ==> (#[trigger] r@[k]).time == records@[k].time,
            forall|k: int|
                0 <= k < i ==> (#[trigger] r@[k]).value == crate::models::spec_precip_median(
                    records@[k].precipitation,
                ),
            forall|k: int| 0 <= k < i ==> 0 <= (#[trigger] r@[k]).value <= 1000000,
        decreases records.len() - i,
    {
        let rec = &records[i];
        assert(rec.wf());
        let median = rec.precipitation.calculate_median() as i64;
        r.push(Sample { time: rec.time, value: median });
        i += 1;
    }
    proof {
        assert(r@ =~= spec_rain_samples(records@));
    }
    r
}

} // verus!
