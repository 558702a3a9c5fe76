//! Windowed aggregation primitives: sum and maximum of a timed series over a
//! half-open time range.
//!
//! The callers project forecast records onto [`Sample`] values (a time plus
//! one numeric reading), so one pair of primitives serves rain totals, wind,
//! UV and humidity alike. All domain readings are non-negative, so the empty
//! maximum defaults to zero — "no data" and "observed zero" are deliberately
//! indistinguishable here, as the data model documents.

use vstd::prelude::*;

verus! {

/// One reading of a timed series: a UTC timestamp and a non-negative value.
pub struct Sample {
    pub time: i64,
    pub value: i64,
}

/// Membership of the half-open range `[start, end)`.
pub open spec fn spec_in_range(t: int, start: int, end: int) -> bool {
    start <= t < end
}

/// A series whose values are bounded domain readings.
pub open spec fn spec_samples_wf(s: Seq<Sample>) -> bool {
    forall|i: int| 0 <= i < s.len() ==> 0 <= (#[trigger] s[i]).value <= 1000000
}

/// The sum of the values whose times fall in `[start, end)`.
pub open spec fn spec_sum_between(s: Seq<Sample>, start: int, end: int) -> int
    decreases s.len(),
{
    if s.len() == 0 {
        0
    } else {
        spec_sum_between(s.drop_last(), start, end) + if spec_in_range(
            s.last().time as int,
            start,
            end,
        ) {
            s.last().value as int
        } else {
            0
        }
    }
}

/// The maximum of the values whose times fall in `[start, end)`, or zero when
/// none does.
pub open spec fn spec_max_between(s: Seq<Sample>, start: int, end: int) -> int
    decreases s.len(),
{
    if s.len() == 0 {
        0
    } else {
        let rest = spec_max_between(s.drop_last(), start, end);
        if spec_in_range(s.last().time as int, start, end) && s.last().value > rest {
            s.last().value as int
        } else {
            rest
        }
    }
}

/// The sum of a well-formed series over any range is bounded by one reading
/// per element.
pub proof fn lemma_sum_bounds(s: Seq<Sample>, start: int, end: int)
    requires
        spec_samples_wf(s),
    ensures
        0 <= spec_sum_between(s, start, end) <= s.len() * 1000000,
    decreases s.len(),
{
    if s.len() > 0 {
        assert(spec_samples_wf(s.drop_last()));
        lemma_sum_bounds(s.drop_last(), start, end);
    }
}

/// The maximum of a well-formed series over any range stays a bounded
/// reading.
pub proof fn lemma_max_bounds(s: Seq<Sample>, start: int, end: int)
    requires
        spec_samples_wf(s),
    ensures
        0 <= spec_max_between(s, start, end) <= 1000000,
    decreases s.len(),
{
    if s.len() > 0 {
        assert(spec_samples_wf(s.drop_last()));
        lemma_max_bounds(s.drop_last(), start, end);
    }
}

/// Sums the values of `data` whose times fall in `[start, end)`.
pub fn get_total_between_dates(data: &Vec<Sample>, start: i64, end: i64) -> (r: i64)
    requires
        spec_samples_wf(data@),
        data@.len() <= 1000000000,
    ensures
        r as int == spec_sum_between(data@, start as int, end as int),
        r >= 0,
{
    proof {
        lemma_sum_bounds(data@, start as int, end as int);
    }
    let mut total: i64 = 0;
    let mut i: usize = 0;
    while i < data.len()
        invariant
            i <= data.len(),
            spec_samples_wf(data@),
            data@.len() <= 1000000000,
            total as int == spec_sum_between(data@.take(i as int), start as int, end as int),
            0 <= total <= i * 1000000,
        decreases data.len() - i,
    {
        proof {
            assert(data@.take(i + 1).drop_last() =~= data@.take(i as int));
            assert(data@.take(i + 1).last() == data@[i as int]);
        }
        let item = &data[i];
        if item.time >= start && item.time < end {
            total = total + item.value;
        }
        i += 1;
    }
    proof {
        assert(data@.take(data@.len() as int) =~= data@);
    }
    total
}

/// The maximum value of `data` over `[start, end)`, or zero when the range
/// holds no reading.
pub fn find_max_item_between_dates(data: &Vec<Sample>, start: i64, end: i64) -> (r: i64)
    requires
        spec_samples_wf(data@),
    ensures
        r as int == spec_max_between(data@, start as int, end as int),
        0 <= r <= 1000000,
{
    proof {
        lemma_max_bounds(data@, start as int, end as int);
    }
    let mut best: i64 = 0;
    let mut i: usize = 0;
    while i < data.len()
        invariant
            i <= data.len(),
            spec_samples_wf(data@),
            best as int == spec_max_between(data@.take(i as int), start as int, end as int),
            0 <= best <= 1000000,
        decreases data.len() - i,
    {
        proof {
            assert(data@.take(i + 1).drop_last() =~= data@.take(i as int));
            assert(data@.take(i + 1).last() == data@[i as int]);
        }
        let item = &data[i];
        if item.time >= start && item.time < end && item.value > best {
            best = item.value;
        }
        i += 1;
    }
    proof {
        assert(data@.take(data@.len() as int) =~= data@);
    }
    best
}

/// Over an empty range the sum is the additive identity and the maximum is
/// the default.
pub proof fn lemma_aggregate_empty_range(s: Seq<Sample>, start: int, end: int)
    requires
        start >= end,
    ensures
        spec_sum_between(s, start, end) == 0,
        spec_max_between(s, start, end) == 0,
    decreases s.len(),
{
    if s.len() > 0 {
        lemma_aggregate_empty_range(s.drop_last(), start, end);
    }
}

/// Over a range that no reading falls in, the aggregates keep their
/// identities.
pub proof fn lemma_aggregate_no_match(s: Seq<Sample>, start: int, end: int)
    requires
        forall|i: int| 0 <= i < s.len() ==> !spec_in_range((#[trigger] s[i]).time as int, start, end),
    ensures
        spec_sum_between(s, start, end) == 0,
        spec_max_between(s, start, end) == 0,
    decreases s.len(),
{
    if s.len() > 0 {
        assert(forall|i: int|
            0 <= i < s.drop_last().len() ==> !spec_in_range(
                (#[trigger] s.drop_last()[i]).time as int,
                start,
                end,
            ));
        lemma_aggregate_no_match(s.drop_last(), start, end);
    }
}

/// Over a range holding exactly one non-negative reading, both aggregates
/// yield that reading.
pub proof fn lemma_aggregate_singleton(s: Seq<Sample>, start: int, end: int, k: int)
    requires
        0 <= k < s.len(),
        spec_in_range(s[k].time as int, start, end),
        s[k].value >= 0,
        forall|i: int|
            0 <= i < s.len() && i != k ==> !spec_in_range(
                (#[trigger] s[i]).time as int,
                start,
                end,
            ),
    ensures
        spec_sum_between(s, start, end) == s[k].value,
        spec_max_between(s, start, end) == s[k].value,
    decreases s.len(),
{
    if k == s.len() - 1 {
        assert(forall|i: int|
            0 <= i < s.drop_last().len() ==> !spec_in_range(
                (#[trigger] s.drop_last()[i]).time as int,
                start,
                end,
            ));
        lemma_aggregate_no_match(s.drop_last(), start, end);
    } else {
        assert(s.drop_last()[k] == s[k]);
        assert(forall|i: int|
            0 <= i < s.drop_last().len() && i != k ==> !spec_in_range(
                (#[trigger] s.drop_last()[i]).time as int,
                start,
                end,
            ));
        lemma_aggregate_singleton(s.drop_last(), start, end, k);
    }
}

/// Picks the figure to display from today's and tomorrow's maxima: always the
/// larger, and whenever tomorrow's is at least today's — ties included — the
/// tomorrow value is chosen and flagged italic (a forecast, not an
/// observation).
pub fn select_display_max(max_today: i64, max_tomorrow: i64) -> (r: (i64, bool))
    ensures
        r.0 == if max_today > max_tomorrow {
            max_today
        } else {
            max_tomorrow
        },
        r.1 == (max_tomorrow >= max_today),
{
    if max_today > max_tomorrow {
        (max_today, false)
    } else {
        (max_tomorrow, true)
    }
}

} // verus!
