//! End-to-end dashboard scenarios through the context builder.

use pi_inky_weather_epd::models::{
    Astronomical, DailyForecast, ForecastResult, HourlyForecast, Precipitation, Wind,
};
use pi_inky_weather_epd::settings::{
    Colour, Colours, RenderOptions, TemperatureUnit, WindSpeedUnit,
};
use pi_inky_weather_epd::graphout::{extract_curve_data, GraphDataPath, GraphOutput};
use pi_inky_weather_epd::{update_forecast_context, Clock, ContextBuilder, DashboardError};

// 2025-01-15T12:30:00Z; the current hour starts at 12:00:00Z; UTC offset 0
const NOW: i64 = 1736944200;
const HOUR: i64 = 1736942400;
const TODAY: i64 = 20103;

fn colour(s: &str) -> Colour {
    Colour::new(s.to_string()).unwrap()
}

fn test_colours() -> Colours {
    Colours {
        background_colour: colour("#ffffff"),
        text_colour: colour("#000000"),
        x_axis_colour: colour("#111111"),
        y_left_axis_colour: colour("#222222"),
        y_right_axis_colour: colour("#333333"),
        actual_temp_colour: colour("#444444"),
        feels_like_colour: colour("#555555"),
        rain_colour: colour("#666666"),
    }
}

fn test_options() -> RenderOptions {
    RenderOptions {
        temp_unit: TemperatureUnit::C,
        wind_speed_unit: WindSpeedUnit::KmH,
        date_format: "%Y-%m-%d".to_string(),
        time_format: "%H:%M".to_string(),
        use_moon_phase_instead_of_clear_night: false,
        x_axis_always_at_min: false,
        use_gust_instead_of_wind: false,
    }
}

fn hourly(time: i64) -> HourlyForecast {
    HourlyForecast {
        time,
        temperature: 21,
        apparent_temperature: 19,
        wind: Wind { speed: 10, gust: 25, direction: 180 },
        precipitation: Precipitation { chance: Some(40), amount_min: 2, amount_max: 4 },
        uv_index: 6,
        relative_humidity: 55,
        icon: "partly-cloudy.svg".to_string(),
    }
}

#[test]
fn seeded_context_has_defaults_everywhere() {
    let builder = ContextBuilder::new(&test_colours(), &test_options());
    let c = &builder.context;
    assert_eq!(c.style.background_colour, "#ffffff");
    assert_eq!(c.style.temp_unit, "C");
    assert_eq!(c.style.current_wind_speed_unit, "km/h");
    assert_eq!(c.days.len(), 7);
    assert_eq!(c.days[3].mintemp, "NA");
    assert_eq!(c.sun.sunrise_time, "NA");
    assert_eq!(c.current.current_hour_actual_temp, "NA");
    assert_eq!(c.aggregates.total_rain_today, "NA");
    assert_eq!(c.aggregates.max_uv_index_font_style, "normal");
    assert_eq!(c.banner.diagnostic_visibility, "hidden");
    assert_eq!(c.banner.diagnostic_icons_svg, "");
    assert_eq!(c.graph.graph_height, "300");
    assert_eq!(c.graph.graph_width, "600");
}

#[test]
fn empty_daily_series_degrades_visibly() {
    // every day shows "NA" with the default icon; exactly one aggregated
    // incomplete-data diagnostic; the banner is visible
    let clock = Clock::fixed(NOW, 0).unwrap();
    let mut builder = ContextBuilder::new(&test_colours(), &test_options());
    let records: Vec<DailyForecast> = Vec::new();
    builder.with_daily_forecast_data(&records, &clock);
    let c = &builder.context;
    for day in &c.days {
        assert_eq!(day.mintemp, "NA");
        assert_eq!(day.maxtemp, "NA");
        assert_eq!(day.icon, "static/weather_icons/not-available.svg");
    }
    assert_eq!(c.days[0].name, "Today");
    assert_eq!(c.days[1].name, "Thu");
    assert_eq!(c.days[6].name, "Tue");
    assert_eq!(c.banner.diagnostic_visibility, "visible");
    assert_eq!(c.banner.diagnostic_message, "Incomplete data");
    assert_eq!(c.banner.diagnostic_icons_svg.matches("<image ").count(), 1);
    assert_eq!(builder.diagnostics.len(), 1);
}

#[test]
fn daily_records_fill_their_days() {
    let clock = Clock::fixed(NOW, 0).unwrap();
    let mut builder = ContextBuilder::new(&test_colours(), &test_options());
    let mut records = Vec::new();
    for i in 0..7 {
        records.push(DailyForecast {
            date: Some(TODAY + i),
            temp_min: Some(10 + i),
            temp_max: Some(20 + i),
            astronomical: if i == 0 {
                Some(Astronomical {
                    sunrise_time: Some(TODAY * 86400 + 6 * 3600 + 12 * 60),
                    sunset_time: Some(TODAY * 86400 + 20 * 3600 + 45 * 60),
                })
            } else {
                None
            },
            icon: format!("day{}.svg", i),
        });
    }
    builder.with_daily_forecast_data(&records, &clock);
    let c = &builder.context;
    assert_eq!(c.days[1].mintemp, "11");
    assert_eq!(c.days[1].maxtemp, "21");
    assert_eq!(c.days[1].icon, "day1.svg");
    assert_eq!(c.days[6].mintemp, "16");
    assert_eq!(c.days[6].maxtemp, "26");
    assert_eq!(c.sun.sunrise_time, "06:12");
    assert_eq!(c.sun.sunset_time, "20:45");
    // nothing was missing: no diagnostic, banner still hidden
    assert_eq!(builder.diagnostics.len(), 0);
    assert_eq!(c.banner.diagnostic_visibility, "hidden");
}

#[test]
fn stale_hourly_series_keeps_defaults_and_reports() {
    // no record at or after the current hour: hourly fields stay default and
    // one diagnostic explains why
    let clock = Clock::fixed(NOW, 0).unwrap();
    let mut builder = ContextBuilder::new(&test_colours(), &test_options());
    let records = vec![hourly(HOUR - 7200), hourly(HOUR - 3600)];
    let curves = builder.with_hourly_forecast_data(&records, &clock);
    assert!(curves.is_none());
    let c = &builder.context;
    assert_eq!(c.current.current_hour_actual_temp, "NA");
    assert_eq!(c.current.current_hour_weather_icon, "static/weather_icons/not-available.svg");
    assert_eq!(c.aggregates.total_rain_today, "NA");
    assert_eq!(c.banner.diagnostic_visibility, "visible");
    assert_eq!(c.banner.diagnostic_message, "Incomplete data");
    assert_eq!(builder.diagnostics.len(), 1);
}

#[test]
fn full_day_of_hourly_points_sums_the_rain() {
    // exactly 24 points spanning [now, now+24h): the rain total equals the
    // sum of the per-hour medians
    let clock = Clock::fixed(NOW, 0).unwrap();
    let mut builder = ContextBuilder::new(&test_colours(), &test_options());
    let mut records = Vec::new();
    for i in 0..24 {
        records.push(hourly(HOUR + i * 3600));
    }
    let curves = builder.with_hourly_forecast_data(&records, &clock).unwrap();
    assert_eq!(curves.temperature.len(), 24);
    let c = &builder.context;
    // each median is (2 + 4) / 2 = 3 tenths of a millimetre, 24 points
    assert_eq!(c.aggregates.total_rain_today, "72");
    assert_eq!(c.current.current_hour_actual_temp, "21");
    assert_eq!(c.current.current_hour_feels_like, "19");
    assert_eq!(c.current.current_hour_weather_icon, "partly-cloudy.svg");
    assert_eq!(c.current.current_hour_rain_amount, "3");
    assert_eq!(c.current.current_hour_wind_speed, "10");
    assert_eq!(c.current.current_hour_uv_index, "6");
    assert_eq!(c.current.current_hour_uv_index_icon, "static/weather_icons/uv-high.svg");
    assert_eq!(c.current.current_hour_relative_humidity, "55");
    assert_eq!(c.current.current_day_date, "2025-01-15");
    assert_eq!(c.current.current_day_time, "12:30");
    // every reading is equal, so "tomorrow wins" and the style turns italic
    assert_eq!(c.aggregates.max_uv_index, "6");
    assert_eq!(c.aggregates.max_uv_index_font_style, "italic");
    assert_eq!(c.aggregates.max_gust_speed, "10");
    assert_eq!(c.aggregates.max_relative_humidity, "55");
    assert_eq!(builder.diagnostics.len(), 0);
}

#[test]
fn today_larger_than_tomorrow_keeps_normal_style() {
    let clock = Clock::fixed(NOW, 0).unwrap();
    let mut builder = ContextBuilder::new(&test_colours(), &test_options());
    let mut records = Vec::new();
    for i in 0..24 {
        let mut h = hourly(HOUR + i * 3600);
        // local midnight at offset 0 falls 11.5h after "now": put the peak
        // into today's slice
        h.uv_index = if i < 6 { 9 } else { 2 };
        records.push(h);
    }
    builder.with_hourly_forecast_data(&records, &clock).unwrap();
    let c = &builder.context;
    assert_eq!(c.aggregates.max_uv_index, "9");
    assert_eq!(c.aggregates.max_uv_index_font_style, "normal");
}

#[test]
fn orchestrated_run_appends_warnings_after_data() {
    let clock = Clock::fixed(NOW, 0).unwrap();
    let mut builder = ContextBuilder::new(&test_colours(), &test_options());
    let daily_result = ForecastResult::<DailyForecast> {
        data: Vec::new(),
        warning: Some(DashboardError::StaleData { details: "daily cache used".to_string() }),
    };
    let mut hours = Vec::new();
    for i in 0..24 {
        hours.push(hourly(HOUR + i * 3600));
    }
    let hourly_result = ForecastResult::<HourlyForecast> { data: hours, warning: None };
    let curves = update_forecast_context(
        &mut builder,
        &clock,
        &daily_result,
        &hourly_result,
        Some("previous update failed".to_string()),
    );
    assert!(curves.is_some());
    // diagnostics: missing daily days, the forwarded update failure, and the
    // provider's stale-data warning
    assert_eq!(builder.diagnostics.len(), 3);
    let c = &builder.context;
    assert_eq!(c.banner.diagnostic_visibility, "visible");
    // the highest priority present is the incomplete daily data
    assert_eq!(c.banner.diagnostic_message, "Incomplete data");
    assert_eq!(c.banner.diagnostic_icons_svg.matches("<image ").count(), 3);
    // the hourly ingest still ran
    assert_eq!(c.aggregates.total_rain_today, "72");
}

#[test]
fn graph_output_merges_into_the_context() {
    let paths = vec![
        GraphDataPath::Temp("M0,0 ".to_string()),
        GraphDataPath::Rain("M2,2".to_string()),
        GraphDataPath::Temp("L1,1".to_string()),
        GraphDataPath::TempFeelLike("M3,3".to_string()),
    ];
    let (temp, feel, rain) = extract_curve_data(&paths);
    assert_eq!(temp, "M0,0 L1,1");
    assert_eq!(feel, "M3,3");
    assert_eq!(rain, "M2,2");
    let mut builder = ContextBuilder::new(&test_colours(), &test_options());
    builder.with_graph_output(GraphOutput {
        graph_height: "300".to_string(),
        graph_width: "600".to_string(),
        actual_temp_curve_data: temp,
        feel_like_curve_data: feel,
        rain_curve_data: rain,
        x_axis_path: "X".to_string(),
        x_axis_guideline_path: "G".to_string(),
        y_left_axis_path: "L".to_string(),
        x_labels: "xl".to_string(),
        y_left_labels: "yl".to_string(),
        y_right_axis_path: "R".to_string(),
        y_right_labels: "yr".to_string(),
        uv_gradient: "U".to_string(),
    });
    assert_eq!(builder.context.graph.actual_temp_curve_data, "M0,0 L1,1");
    assert_eq!(builder.context.graph.x_axis_path, "X");
}
