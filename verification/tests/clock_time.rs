//! The clock value and its chrono-backed local formatting.

use pi_inky_weather_epd::Clock;

// 2025-01-15T12:30:00Z
const NOW: i64 = 1736944200;

#[test]
fn fixed_clock_reports_its_instant() {
    let clock = Clock::fixed(NOW, 39600).unwrap();
    assert_eq!(clock.now_utc(), NOW);
    assert_eq!(clock.offset(), 39600);
    assert_eq!(clock.now_local(), NOW + 39600);
}

#[test]
fn out_of_range_clocks_are_rejected() {
    assert!(Clock::fixed(-1, 0).is_none());
    assert!(Clock::fixed(NOW, 86400).is_none());
    assert!(Clock::fixed(NOW, -86400).is_none());
}

#[test]
fn clock_parses_rfc3339_text() {
    let clock = Clock::from_rfc3339("2025-01-15T12:30:00Z", 0).unwrap();
    assert_eq!(clock.now_utc(), NOW);
    assert!(Clock::from_rfc3339("2025-01-15", 0).is_none());
    assert!(Clock::from_rfc3339("2025-01-15T12:30:00Z", 90000).is_none());
}

#[test]
fn formats_local_time_through_chrono() {
    let clock = Clock::fixed(NOW, 0).unwrap();
    assert_eq!(clock.format_local("%H:%M").as_deref(), Some("12:30"));
    assert_eq!(clock.format_local("%Y-%m-%d").as_deref(), Some("2025-01-15"));
    assert_eq!(clock.format_local("%a %d %b").as_deref(), Some("Wed 15 Jan"));
    let east = Clock::fixed(NOW, 39600).unwrap();
    assert_eq!(east.format_local("%H:%M").as_deref(), Some("23:30"));
    assert_eq!(east.format_local("%Y-%m-%d").as_deref(), Some("2025-01-15"));
}

#[test]
fn invalid_patterns_are_reported_not_panicked() {
    let clock = Clock::fixed(NOW, 0).unwrap();
    assert_eq!(clock.format_local("%"), None);
    assert_eq!(clock.format_local("%-"), None);
    // a parse-only specifier that chrono cannot render
    assert_eq!(clock.format_local("%#z"), None);
}

#[test]
fn system_clock_reads_the_current_time() {
    // the machine clock is surely within the supported calendar range
    assert!(Clock::system().is_some());
}
