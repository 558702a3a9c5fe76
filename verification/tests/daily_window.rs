//! The daily window mapper on concrete inputs.

use pi_inky_weather_epd::daily::{assign, build_window, extract_sun_times, map_records};
use pi_inky_weather_epd::models::{Astronomical, DailyForecast};

fn record(date: Option<i64>, min: Option<i64>, max: Option<i64>, icon: &str) -> DailyForecast {
    DailyForecast {
        date,
        temp_min: min,
        temp_max: max,
        astronomical: None,
        icon: icon.to_string(),
    }
}

#[test]
fn window_is_seven_consecutive_dates() {
    let w = build_window(20103);
    assert_eq!(w, vec![20103, 20104, 20105, 20106, 20107, 20108, 20109]);
}

#[test]
fn assign_returns_seven_results_and_counts_missing() {
    // three of seven dates served: missing_count must be exactly four
    let records = vec![
        record(Some(20103), Some(5), Some(15), "a.svg"),
        record(Some(20105), Some(6), Some(16), "b.svg"),
        record(Some(20109), None, Some(17), "c.svg"),
    ];
    let window = build_window(20103);
    let mapping = map_records(&records, &window);
    assert_eq!(mapping.len(), 7);
    let (summaries, missing) = assign(&records, &mapping);
    assert_eq!(summaries.len(), 7);
    assert_eq!(missing, 4);
    assert_eq!(summaries[0].min_temp, "5");
    assert_eq!(summaries[0].max_temp, "15");
    assert_eq!(summaries[0].icon, "a.svg");
    assert_eq!(summaries[1].min_temp, "NA");
    assert_eq!(summaries[1].icon, "static/weather_icons/not-available.svg");
    assert_eq!(summaries[2].min_temp, "6");
    assert_eq!(summaries[6].min_temp, "NA");
    assert_eq!(summaries[6].max_temp, "17");
    assert_eq!(summaries[6].icon, "c.svg");
}

#[test]
fn empty_series_misses_every_date() {
    let records: Vec<DailyForecast> = Vec::new();
    let window = build_window(200);
    let mapping = map_records(&records, &window);
    let (summaries, missing) = assign(&records, &mapping);
    assert_eq!(summaries.len(), 7);
    assert_eq!(missing, 7);
    for s in &summaries {
        assert_eq!(s.min_temp, "NA");
        assert_eq!(s.max_temp, "NA");
        assert_eq!(s.icon, "static/weather_icons/not-available.svg");
    }
}

#[test]
fn records_without_dates_are_dropped() {
    let records = vec![record(None, Some(1), Some(2), "x.svg")];
    let window = build_window(100);
    let mapping = map_records(&records, &window);
    let (_, missing) = assign(&records, &mapping);
    assert_eq!(missing, 7);
}

#[test]
fn duplicate_dates_resolve_last_write_wins() {
    let records = vec![
        record(Some(300), Some(1), Some(2), "first.svg"),
        record(Some(300), Some(3), Some(4), "second.svg"),
    ];
    let window = build_window(300);
    let mapping = map_records(&records, &window);
    let (summaries, missing) = assign(&records, &mapping);
    assert_eq!(missing, 6);
    assert_eq!(summaries[0].min_temp, "3");
    assert_eq!(summaries[0].max_temp, "4");
    assert_eq!(summaries[0].icon, "second.svg");
}

#[test]
fn sun_times_format_or_default() {
    let astro = Some(Astronomical {
        sunrise_time: Some(20103 * 86400 + 6 * 3600 + 5 * 60),
        sunset_time: None,
    });
    let (sunrise, sunset) = extract_sun_times(&astro);
    assert_eq!(sunrise, "06:05");
    assert_eq!(sunset, "NA");
    let (sunrise2, sunset2) = extract_sun_times(&None);
    assert_eq!(sunrise2, "NA");
    assert_eq!(sunset2, "NA");
}
