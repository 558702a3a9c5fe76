//! Validated configuration values and log-line formatting.

use pi_inky_weather_epd::logging::{debug, error, info, success, warning, LogLevel};
use pi_inky_weather_epd::models::{
    relative_humidity_icon_path, uv_index_icon_path, Precipitation, Wind,
};
use pi_inky_weather_epd::settings::{
    Colour, GeoHash, Providers, TemperatureUnit, UpdateIntervalDays, WindSpeedUnit,
};

#[test]
fn colours_accept_hex_strings_only() {
    assert!(Colour::new("#aabbcc".to_string()).is_ok());
    assert!(Colour::new("#AABB00".to_string()).is_ok());
    assert!(Colour::new("#123456".to_string()).is_ok());
    assert!(Colour::new("aabbcc".to_string()).is_err());
    assert!(Colour::new("#aabbc".to_string()).is_err());
    assert!(Colour::new("#aabbccd".to_string()).is_err());
    assert!(Colour::new("#aabbcg".to_string()).is_err());
    assert!(Colour::new("".to_string()).is_err());
    let c = Colour::new("#010203".to_string()).unwrap();
    assert_eq!(c.value(), "#010203");
}

#[test]
fn geohash_needs_six_characters() {
    assert!(GeoHash::new("r1r0fs".to_string()).is_ok());
    assert!(GeoHash::new("r1r0f".to_string()).is_err());
    assert!(GeoHash::new("r1r0fsx".to_string()).is_err());
    let g = GeoHash::new("u4pruy".to_string()).unwrap();
    assert_eq!(g.value(), "u4pruy");
}

#[test]
fn update_interval_rejects_negatives() {
    assert!(UpdateIntervalDays::new(0).is_ok());
    assert!(UpdateIntervalDays::new(30).is_ok());
    assert!(UpdateIntervalDays::new(-1).is_err());
    assert_eq!(UpdateIntervalDays::new(7).unwrap().into_inner(), 7);
}

#[test]
fn unit_labels() {
    assert_eq!(TemperatureUnit::C.label(), "C");
    assert_eq!(TemperatureUnit::F.label(), "F");
    assert_eq!(WindSpeedUnit::KmH.label(), "km/h");
    assert_eq!(WindSpeedUnit::Mph.label(), "mph");
    assert_eq!(WindSpeedUnit::Knots.label(), "knots");
    assert_eq!(Providers::Bom.label(), "Bom");
    assert_eq!(Providers::OpenMeteo.label(), "OpenMeteo");
}

#[test]
fn wind_speed_conversions_truncate() {
    assert_eq!(Wind::convert_speed(100, WindSpeedUnit::KmH), 100);
    assert_eq!(Wind::convert_speed(100, WindSpeedUnit::Mph), 62);
    assert_eq!(Wind::convert_speed(100, WindSpeedUnit::Knots), 54);
    assert_eq!(Wind::convert_speed(0, WindSpeedUnit::Mph), 0);
    assert_eq!(Wind::convert_speed(33, WindSpeedUnit::Mph), 20);
}

#[test]
fn wind_icons_follow_the_compass() {
    let north = Wind { speed: 0, gust: 0, direction: 0 };
    assert_eq!(north.get_icon_path(), "static/weather_icons/wind-n.svg");
    let east = Wind { speed: 0, gust: 0, direction: 90 };
    assert_eq!(east.get_icon_path(), "static/weather_icons/wind-e.svg");
    let south_west = Wind { speed: 0, gust: 0, direction: 225 };
    assert_eq!(south_west.get_icon_path(), "static/weather_icons/wind-sw.svg");
    let wrap = Wind { speed: 0, gust: 0, direction: 359 };
    assert_eq!(wrap.get_icon_path(), "static/weather_icons/wind-n.svg");
}

#[test]
fn rain_and_comfort_icons_follow_their_bands() {
    let none = Precipitation { chance: None, amount_min: 0, amount_max: 0 };
    assert_eq!(none.get_icon_path(), "static/weather_icons/rain-none.svg");
    let heavy = Precipitation { chance: Some(90), amount_min: 0, amount_max: 0 };
    assert_eq!(heavy.get_icon_path(), "static/weather_icons/rain-heavy.svg");
    assert_eq!(uv_index_icon_path(0), "static/weather_icons/uv-low.svg");
    assert_eq!(uv_index_icon_path(11), "static/weather_icons/uv-extreme.svg");
    assert_eq!(relative_humidity_icon_path(20), "static/weather_icons/humidity-dry.svg");
    assert_eq!(relative_humidity_icon_path(50), "static/weather_icons/humidity-comfortable.svg");
    assert_eq!(relative_humidity_icon_path(80), "static/weather_icons/humidity-humid.svg");
}

#[test]
fn precipitation_median_is_the_range_midpoint() {
    let p = Precipitation {
        chance: Some(10),
        amount_min: 2,
        amount_max: 5,
    };
    assert_eq!(p.calculate_median(), 3);
}

#[test]
fn log_lines_carry_level_markers() {
    assert_eq!(info("hello"), "\u{1b}[36m\u{2139} INFO\u{1b}[0m hello");
    assert_eq!(success("done"), "\u{1b}[32m\u{2713} SUCCESS\u{1b}[0m done");
    assert_eq!(warning("careful"), "\u{1b}[33m\u{26a0} WARNING\u{1b}[0m careful");
    assert_eq!(error("broken"), "\u{1b}[31m\u{2717} ERROR\u{1b}[0m broken");
    assert_eq!(LogLevel::Info.label(), "INFO");
    assert_eq!(LogLevel::Error.symbol(), "\u{2717}");
    assert_eq!(LogLevel::Success.colour_code(), "\u{1b}[32m");
}

#[test]
fn debug_lines_follow_the_configured_gate() {
    assert_eq!(
        debug("detail", true).as_deref(),
        Some("\u{1b}[90m\u{2022} DEBUG\u{1b}[0m detail")
    );
    assert_eq!(debug("detail", false), None);
}
