//! The hourly window finder, the aggregation primitives and the binning on
//! concrete inputs.

use pi_inky_weather_epd::aggregate::{
    find_max_item_between_dates, get_total_between_dates, select_display_max, Sample,
};
use pi_inky_weather_epd::hourly::{bin_hourly, find_forecast_window, first_in_window};
use pi_inky_weather_epd::models::{HourlyForecast, Precipitation, Wind};
use pi_inky_weather_epd::Clock;

// 2025-01-15T12:30:00Z; the current hour starts at 12:00:00Z
const NOW: i64 = 1736944200;
const HOUR: i64 = 1736942400;

fn hourly(time: i64, temperature: i64) -> HourlyForecast {
    HourlyForecast {
        time,
        temperature,
        apparent_temperature: temperature - 2,
        wind: Wind { speed: 10, gust: 20, direction: 90 },
        precipitation: Precipitation { chance: Some(40), amount_min: 2, amount_max: 4 },
        uv_index: 5,
        relative_humidity: 50,
        icon: "hour.svg".to_string(),
    }
}

#[test]
fn window_starts_at_first_record_of_the_hour() {
    let clock = Clock::fixed(NOW, 0).unwrap();
    let records = vec![hourly(HOUR - 3600, 10), hourly(HOUR, 11), hourly(HOUR + 3600, 12)];
    let window = find_forecast_window(&records, &clock);
    assert_eq!(window, Some((HOUR, HOUR + 86400)));
}

#[test]
fn no_record_at_or_after_now_yields_no_window() {
    let clock = Clock::fixed(NOW, 0).unwrap();
    let records = vec![hourly(HOUR - 7200, 10), hourly(HOUR - 3600, 11)];
    assert_eq!(find_forecast_window(&records, &clock), None);
    let empty: Vec<HourlyForecast> = Vec::new();
    assert_eq!(find_forecast_window(&empty, &clock), None);
}

#[test]
fn first_record_on_tomorrows_date_yields_no_window() {
    let clock = Clock::fixed(NOW, 0).unwrap();
    // the nearest future record is 2025-01-16T01:00Z — a gap spans midnight
    let records = vec![hourly(HOUR - 3600, 10), hourly(1736989200, 11)];
    assert_eq!(find_forecast_window(&records, &clock), None);
}

#[test]
fn aggregates_over_empty_range_yield_identities() {
    let data = vec![Sample { time: 100, value: 5 }, Sample { time: 200, value: 7 }];
    // an empty range: start not before end
    assert_eq!(get_total_between_dates(&data, 300, 300), 0);
    assert_eq!(find_max_item_between_dates(&data, 300, 100), 0);
    // a range no reading falls in
    assert_eq!(get_total_between_dates(&data, 300, 400), 0);
    assert_eq!(find_max_item_between_dates(&data, 300, 400), 0);
}

#[test]
fn aggregates_over_singleton_range_yield_that_value() {
    let data = vec![
        Sample { time: 100, value: 5 },
        Sample { time: 200, value: 7 },
        Sample { time: 300, value: 9 },
    ];
    assert_eq!(get_total_between_dates(&data, 150, 250), 7);
    assert_eq!(find_max_item_between_dates(&data, 150, 250), 7);
}

#[test]
fn aggregates_respect_the_half_open_range() {
    let data = vec![
        Sample { time: 100, value: 5 },
        Sample { time: 200, value: 7 },
        Sample { time: 300, value: 9 },
    ];
    // the end bound is exclusive, the start bound inclusive
    assert_eq!(get_total_between_dates(&data, 100, 300), 12);
    assert_eq!(find_max_item_between_dates(&data, 100, 300), 7);
    assert_eq!(get_total_between_dates(&data, 100, 301), 21);
    assert_eq!(find_max_item_between_dates(&data, 100, 301), 9);
}

#[test]
fn equal_maxima_select_tomorrow_with_italic() {
    let (value, italic) = select_display_max(40, 40);
    assert_eq!(value, 40);
    assert!(italic);
    let (value, italic) = select_display_max(50, 40);
    assert_eq!(value, 50);
    assert!(!italic);
    let (value, italic) = select_display_max(40, 50);
    assert_eq!(value, 50);
    assert!(italic);
}

#[test]
fn binning_keeps_in_window_records_in_order() {
    let records = vec![
        hourly(HOUR - 3600, 1),
        hourly(HOUR, 2),
        hourly(HOUR + 3600, 3),
        hourly(HOUR + 86400, 4),
    ];
    let curves = bin_hourly(&records, HOUR, HOUR + 86400);
    assert_eq!(curves.temperature, vec![2, 3]);
    assert_eq!(curves.apparent, vec![0, 1]);
    assert_eq!(curves.rain_chance, vec![40, 40]);
    assert_eq!(curves.uv, vec![5, 5]);
}

#[test]
fn binning_caps_at_twenty_four_slots() {
    let mut records = Vec::new();
    for i in 0..30 {
        records.push(hourly(HOUR + i * 1800, i));
    }
    let curves = bin_hourly(&records, HOUR, HOUR + 86400);
    assert_eq!(curves.temperature.len(), 24);
    assert_eq!(curves.temperature[0], 0);
    assert_eq!(curves.temperature[23], 23);
}

#[test]
fn first_in_window_is_the_earliest_match() {
    let records = vec![hourly(HOUR - 3600, 1), hourly(HOUR + 60, 2), hourly(HOUR + 120, 3)];
    let first = first_in_window(&records, HOUR, HOUR + 86400).unwrap();
    assert_eq!(first.temperature, 2);
    assert!(first_in_window(&records, HOUR + 7200, HOUR + 86400).is_none());
}
