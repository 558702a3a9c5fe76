//! The rendering context and the builder that orchestrates the dashboard.
//!
//! The context is the flat record the template stage consumes: every field is
//! a string with a deterministic default, so the template never sees an unset
//! value. The builder runs the sequential, non-aborting phases: seed from
//! configuration, ingest the daily series, ingest the hourly series, merge
//! the graph renderer's output, and append provider warnings — every problem
//! found becomes a diagnostic, never a failure.

use vstd::prelude::*;
use crate::daily::{
    assign, build_window, extract_sun_times, map_records, spec_last_match, spec_opt_sun_time,
};
use crate::diagnostics::{
    spec_icons_svg, spec_short_description, spec_sorted_by_priority, DashboardError,
    DiagnosticStack,
};
use crate::models::DailyForecast;
use crate::numfmt::{spec_dec_digits, u64_to_string};
use crate::settings::{Colours, RenderOptions, WindSpeedUnit};
use crate::timecalc::{spec_local_secs, spec_weekday_abbrev, weekday_abbrev};
use crate::clock::Clock;
use crate::graphout::GraphOutput;

verus! {

/// The style and unit strings seeded from configuration.
pub struct StyleContext {
    pub background_colour: String,
    pub text_colour: String,
    pub x_axis_colour: String,
    pub y_left_axis_colour: String,
    pub y_right_axis_colour: String,
    pub actual_temp_colour: String,
    pub feels_like_colour: String,
    pub rain_colour: String,
    pub temp_unit: String,
    pub current_wind_speed_unit: String,
}

/// One day card of the 7-day strip.
pub struct DayCard {
    pub mintemp: String,
    pub maxtemp: String,
    pub icon: String,
    pub name: String,
}

/// Sunrise and sunset display fields of the day-one card.
pub struct SunContext {
    pub sunrise_time: String,
    pub sunset_time: String,
    pub sunrise_icon: String,
    pub sunset_icon: String,
}

/// The "current hour" fields filled from the first in-window hourly record.
pub struct CurrentHourContext {
    pub current_hour_actual_temp: String,
    pub current_hour_weather_icon: String,
    pub current_hour_feels_like: String,
    pub current_hour_wind_speed: String,
    pub current_hour_wind_icon: String,
    pub current_hour_uv_index: String,
    pub current_hour_uv_index_icon: String,
    pub current_hour_relative_humidity: String,
    pub current_hour_relative_humidity_icon: String,
    pub current_day_date: String,
    pub current_day_time: String,
    pub current_hour_rain_amount: String,
    pub current_hour_rain_measure_icon: String,
}

/// The windowed aggregates and their style flags.
pub struct AggregateContext {
    pub max_uv_index: String,
    pub max_uv_index_font_style: String,
    pub max_gust_speed: String,
    pub max_gust_speed_font_style: String,
    pub max_relative_humidity: String,
    pub max_relative_humidity_font_style: String,
    pub total_rain_today: String,
}

/// The visible diagnostic banner.
pub struct BannerContext {
    pub diagnostic_message: String,
    pub diagnostic_visibility: String,
    pub diagnostic_icons_svg: String,
}

/// The flat rendering context: always fully populated, consumed verbatim by
/// the template stage (the serialization boundary flattens the groups into
/// named fields).
pub struct Context {
    pub style: StyleContext,
    pub days: Vec<DayCard>,
    pub sun: SunContext,
    pub current: CurrentHourContext,
    pub aggregates: AggregateContext,
    pub graph: GraphOutput,
    pub banner: BannerContext,
}

/// A freshly seeded context: configuration strings in place and every
/// data-derived field at its deterministic default.
pub open spec fn spec_default_context(c: Context, colours: Colours, options: RenderOptions) -> bool {
    &&& c.style.background_colour@ == colours.background_colour.spec_value()
    &&& c.style.text_colour@ == colours.text_colour.spec_value()
    &&& c.style.x_axis_colour@ == colours.x_axis_colour.spec_value()
    &&& c.style.y_left_axis_colour@ == colours.y_left_axis_colour.spec_value()
    &&& c.style.y_right_axis_colour@ == colours.y_right_axis_colour.spec_value()
    &&& c.style.actual_temp_colour@ == colours.actual_temp_colour.spec_value()
    &&& c.style.feels_like_colour@ == colours.feels_like_colour.spec_value()
    &&& c.style.rain_colour@ == colours.rain_colour.spec_value()
    &&& c.style.temp_unit@ == (match options.temp_unit {
        crate::settings::TemperatureUnit::C => "C"@,
        crate::settings::TemperatureUnit::F => "F"@,
    })
    &&& c.style.current_wind_speed_unit@ == (match options.wind_speed_unit {
        WindSpeedUnit::KmH => "km/h"@,
        WindSpeedUnit::Mph => "mph"@,
        WindSpeedUnit::Knots => "knots"@,
    })
    &&& c.days@.len() == 7
    &&& forall|i: int| 0 <= i < 7 ==> (#[trigger] c.days@[i]).mintemp@ == "NA"@
    &&& forall|i: int| 0 <= i < 7 ==> (#[trigger] c.days@[i]).maxtemp@ == "NA"@
    &&& forall|i: int|
        0 <= i < 7 ==> (#[trigger] c.days@[i]).icon@ == "static/weather_icons/not-available.svg"@
    &&& forall|i: int| 0 <= i < 7 ==> (#[trigger] c.days@[i]).name@ == "NA"@
    &&& c.sun.sunrise_time@ == "NA"@
    &&& c.sun.sunset_time@ == "NA"@
    &&& c.sun.sunrise_icon@ == "static/weather_icons/sunrise.svg"@
    &&& c.sun.sunset_icon@ == "static/weather_icons/sunset.svg"@
    &&& c.current.current_hour_actual_temp@ == "NA"@
    &&& c.current.current_hour_weather_icon@ == "static/weather_icons/not-available.svg"@
    &&& c.current.current_hour_feels_like@ == "NA"@
    &&& c.current.current_hour_wind_speed@ == "NA"@
    &&& c.current.current_hour_wind_icon@ == "static/weather_icons/not-available.svg"@
    &&& c.current.current_hour_uv_index@ == "NA"@
    &&& c.current.current_hour_uv_index_icon@ == "static/weather_icons/not-available.svg"@
    &&& c.current.current_hour_relative_humidity@ == "NA"@
    &&& c.current.current_hour_relative_humidity_icon@
        == "static/weather_icons/not-available.svg"@
    &&& c.current.current_day_date@ == "NA"@
    &&& c.current.current_day_time@ == "NA"@
    &&& c.current.current_hour_rain_amount@ == "NA"@
    &&& c.current.current_hour_rain_measure_icon@ == "static/weather_icons/not-available.svg"@
    &&& c.aggregates.max_uv_index@ == "NA"@
    &&& c.aggregates.max_uv_index_font_style@ == "normal"@
    &&& c.aggregates.max_gust_speed@ == "NA"@
    &&& c.aggregates.max_gust_speed_font_style@ == "normal"@
    &&& c.aggregates.max_relative_humidity@ == "NA"@
    &&& c.aggregates.max_relative_humidity_font_style@ == "normal"@
    &&& c.aggregates.total_rain_today@ == "NA"@
    &&& c.graph.graph_height@ == "300"@
    &&& c.graph.graph_width@ == "600"@
    &&& c.graph.actual_temp_curve_data@ == Seq::<char>::empty()
    &&& c.graph.feel_like_curve_data@ == Seq::<char>::empty()
    &&& c.graph.rain_curve_data@ == Seq::<char>::empty()
    &&& c.graph.x_axis_path@ == Seq::<char>::empty()
    &&& c.graph.x_axis_guideline_path@ == Seq::<char>::empty()
    &&& c.graph.y_left_axis_path@ == Seq::<char>::empty()
    &&& c.graph.x_labels@ == Seq::<char>::empty()
    &&& c.graph.y_left_labels@ == Seq::<char>::empty()
    &&& c.graph.y_right_axis_path@ == Seq::<char>::empty()
    &&& c.graph.y_right_labels@ == Seq::<char>::empty()
    &&& c.graph.uv_gradient@ == Seq::<char>::empty()
    &&& c.banner.diagnostic_message@ == "NA"@
    &&& c.banner.diagnostic_visibility@ == "hidden"@
    &&& c.banner.diagnostic_icons_svg@ == Seq::<char>::empty()
}

fn default_day_card() -> (r: DayCard)
    ensures
        r.mintemp@ == "NA"@,
        r.maxtemp@ == "NA"@,
        r.icon@ == "static/weather_icons/not-available.svg"@,
        r.name@ == "NA"@,
{
    DayCard {
        mintemp: "NA".to_owned(),
        maxtemp: "NA".to_owned(),
        icon: crate::models::not_available_icon_path().to_owned(),
        name: "NA".to_owned(),
    }
}

impl Context {
    /// Seeds a context from the configured colours and units, with every
    /// data-derived field at its default.
    pub fn from_config(colours: &Colours, options: &RenderOptions) -> (c: Context)
        ensures
            spec_default_context(c, *colours, *options),
    {
        let na = "NA";
        let na_icon = crate::models::not_available_icon_path();
        let mut days: Vec<DayCard> = Vec::new();
        let mut i: usize = 0;
        while i < 7
            invariant
                i <= 7,
                days@.len() == i,
                forall|k: int| 0 <= k < i ==> (#[trigger] days@[k]).mintemp@ == "NA"@,
                forall|k: int| 0 <= k < i ==> (#[trigger] days@[k]).maxtemp@ == "NA"@,
                forall|k: int|
                    0 <= k < i ==> (#[trigger] days@[k]).icon@
                        == "static/weather_icons/not-available.svg"@,
                forall|k: int| 0 <= k < i ==> (#[trigger] days@[k]).name@ == "NA"@,
            decreases 7 - i,
        {
            days.push(default_day_card());
            i += 1;
        }
        Context {
            style: StyleContext {
                background_colour: colours.background_colour.value().to_owned(),
                text_colour: colours.text_colour.value().to_owned(),
                x_axis_colour: colours.x_axis_colour.value().to_owned(),
                y_left_axis_colour: colours.y_left_axis_colour.value().to_owned(),
                y_right_axis_colour: colours.y_right_axis_colour.value().to_owned(),
                actual_temp_colour: colours.actual_temp_colour.value().to_owned(),
                feels_like_colour: colours.feels_like_colour.value().to_owned(),
                rain_colour: colours.rain_colour.value().to_owned(),
                temp_unit: options.temp_unit.label().to_owned(),
                current_wind_speed_unit: options.wind_speed_unit.label().to_owned(),
            },
            days,
            sun: SunContext {
                sunrise_time: na.to_owned(),
                sunset_time: na.to_owned(),
                sunrise_icon: crate::models::SunPositionIconName::Sunrise.get_icon_path()
                    .to_owned(),
                sunset_icon: crate::models::SunPositionIconName::Sunset.get_icon_path().to_owned(),
            },
            current: CurrentHourContext {
                current_hour_actual_temp: na.to_owned(),
                current_hour_weather_icon: na_icon.to_owned(),
                current_hour_feels_like: na.to_owned(),
                current_hour_wind_speed: na.to_owned(),
                current_hour_wind_icon: na_icon.to_owned(),
                current_hour_uv_index: na.to_owned(),
                current_hour_uv_index_icon: na_icon.to_owned(),
                current_hour_relative_humidity: na.to_owned(),
                current_hour_relative_humidity_icon: na_icon.to_owned(),
                current_day_date: na.to_owned(),
                current_day_time: na.to_owned(),
                current_hour_rain_amount: na.to_owned(),
                current_hour_rain_measure_icon: na_icon.to_owned(),
            },
            aggregates: AggregateContext {
                max_uv_index: na.to_owned(),
                max_uv_index_font_style: "normal".to_owned(),
                max_gust_speed: na.to_owned(),
                max_gust_speed_font_style: "normal".to_owned(),
                max_relative_humidity: na.to_owned(),
                max_relative_humidity_font_style: "normal".to_owned(),
                total_rain_today: na.to_owned(),
            },
            graph: GraphOutput {
                graph_height: "300".to_owned(),
                graph_width: "600".to_owned(),
                actual_temp_curve_data: String::new(),
                feel_like_curve_data: String::new(),
                rain_curve_data: String::new(),
                x_axis_path: String::new(),
                x_axis_guideline_path: String::new(),
                y_left_axis_path: String::new(),
                x_labels: String::new(),
                y_left_labels: String::new(),
                y_right_axis_path: String::new(),
                y_right_labels: String::new(),
                uv_gradient: String::new(),
            },
            banner: BannerContext {
                diagnostic_message: na.to_owned(),
                diagnostic_visibility: "hidden".to_owned(),
                diagnostic_icons_svg: String::new(),
            },
        }
    }
}

/// The banner fields reflect a non-empty diagnostic collection: visible, the
/// message of the first-found highest-priority diagnostic, and the stacked
/// icons.
pub open spec fn spec_banner_set(b: BannerContext, items: Seq<DashboardError>) -> bool {
    &&& b.diagnostic_visibility@ == (if items.len() > 0 {
        "visible"@
    } else {
        "hidden"@
    })
    &&& items.len() > 0 ==> b.diagnostic_message@ == spec_short_description(
        spec_sorted_by_priority(items)[0],
    )
    &&& b.diagnostic_icons_svg@ == spec_icons_svg(items)
}

/// Every daily record is well formed.
pub open spec fn spec_daily_records_wf(s: Seq<DailyForecast>) -> bool {
    forall|i: int| 0 <= i < s.len() ==> (#[trigger] s[i]).wf()
}

/// The aggregated incomplete-data message for `n` missing days.
pub open spec fn spec_missing_details(n: int) -> Seq<char> {
    "Missing "@ + spec_dec_digits(n) + " day(s) of daily forecast data, using incomplete data"@
}

/// What ingesting the daily series leaves in the context: the seven day
/// cards filled per window date (last record wins, missing dates render
/// "NA"), calendar day names, and sunrise/sunset from today's record where
/// it has astronomical data.
pub open spec fn spec_daily_fields_applied(
    c: Context,
    old_c: Context,
    records: Seq<DailyForecast>,
    today: int,
) -> bool {
    &&& c.days@.len() == 7
    &&& forall|i: int|
        0 <= i < 7 ==> (#[trigger] c.days@[i]).mintemp@ == crate::daily::spec_date_min(
            records,
            today + i,
        )
    &&& forall|i: int|
        0 <= i < 7 ==> (#[trigger] c.days@[i]).maxtemp@ == crate::daily::spec_date_max(
            records,
            today + i,
        )
    &&& forall|i: int|
        0 <= i < 7 ==> (#[trigger] c.days@[i]).icon@ == crate::daily::spec_date_icon(
            records,
            today + i,
        )
    &&& c.days@[0].name@ == "Today"@
    &&& forall|i: int|
        1 <= i < 7 ==> (#[trigger] c.days@[i]).name@ == spec_weekday_abbrev(today + i)
    &&& (match spec_last_match(records, today) {
        Some(k) => match records[k].astronomical {
            Some(a) => c.sun.sunrise_time@ == spec_opt_sun_time(a.sunrise_time)
                && c.sun.sunset_time@ == spec_opt_sun_time(a.sunset_time),
            None => c.sun.sunrise_time == old_c.sun.sunrise_time && c.sun.sunset_time
                == old_c.sun.sunset_time,
        },
        None => c.sun.sunrise_time == old_c.sun.sunrise_time && c.sun.sunset_time == old_c.sun
            .sunset_time,
    })
    &&& c.sun.sunrise_icon == old_c.sun.sunrise_icon
    &&& c.sun.sunset_icon == old_c.sun.sunset_icon
}

/// What ingesting the hourly series leaves in the context, for the window
/// `[start, start+86400)` with its local-midnight boundary `day_end`: the
/// current-hour fields from the first in-window record, the today/tomorrow
/// maxima with their italic flags, and the rain total over the whole window.
pub open spec fn spec_hourly_fields_applied(
    c: Context,
    old_c: Context,
    records: Seq<crate::models::HourlyForecast>,
    start: int,
    end: int,
    day_end: int,
    now: int,
    off: int,
    use_gust: bool,
    unit: WindSpeedUnit,
    date_fmt: Seq<char>,
    time_fmt: Seq<char>,
) -> bool {
    let w = crate::hourly::spec_window_records(records, start, end);
    &&& w.len() > 0 ==> ({
        let first = w[0];
        &&& c.current.current_hour_actual_temp@ == crate::numfmt::spec_int_digits(
            first.temperature as int,
        )
        &&& c.current.current_hour_weather_icon@ == first.icon@
        &&& c.current.current_hour_feels_like@ == crate::numfmt::spec_int_digits(
            first.apparent_temperature as int,
        )
        &&& c.current.current_hour_rain_amount@ == spec_dec_digits(
            crate::models::spec_precip_median(first.precipitation),
        )
        &&& c.current.current_hour_rain_measure_icon@ == crate::models::spec_precip_icon_path(
            first.precipitation,
        )
        &&& c.current.current_hour_wind_speed@ == spec_dec_digits(
            crate::models::spec_convert_speed(
                if use_gust {
                    first.wind.gust as int
                } else {
                    first.wind.speed as int
                },
                unit,
            ),
        )
        &&& c.current.current_hour_wind_icon@ == "static/weather_icons/wind-"@
            + crate::models::spec_wind_sector_name(first.wind.direction as int) + ".svg"@
        &&& c.current.current_hour_uv_index@ == spec_dec_digits(first.uv_index as int)
        &&& c.current.current_hour_uv_index_icon@ == crate::models::spec_uv_icon_path(
            first.uv_index as int,
        )
        &&& c.current.current_hour_relative_humidity@ == spec_dec_digits(
            first.relative_humidity as int,
        )
        &&& c.current.current_hour_relative_humidity_icon@
            == crate::models::spec_humidity_icon_path(first.relative_humidity as int)
        &&& c.current.current_day_date@ == (if crate::clock::chrono_accepts(date_fmt) {
            crate::clock::chrono_format_of(now, off, date_fmt)
        } else {
            "NA"@
        })
        &&& c.current.current_day_time@ == (if crate::clock::chrono_accepts(time_fmt) {
            crate::clock::chrono_format_of(now, off, time_fmt)
        } else {
            "NA"@
        })
    })
    &&& w.len() == 0 ==> c.current == old_c.current
    &&& ({
        let ws = crate::hourly::spec_wind_samples(records, use_gust);
        let wt = crate::aggregate::spec_max_between(ws, start, day_end);
        let wm = crate::aggregate::spec_max_between(ws, day_end, end);
        &&& c.aggregates.max_gust_speed@ == spec_dec_digits(
            crate::models::spec_convert_speed(
                if wt > wm {
                    wt
                } else {
                    wm
                },
                unit,
            ),
        )
        &&& c.aggregates.max_gust_speed_font_style@ == (if wm >= wt {
            "italic"@
        } else {
            old_c.aggregates.max_gust_speed_font_style@
        })
    })
    &&& ({
        let us = crate::hourly::spec_uv_samples(records);
        let ut = crate::aggregate::spec_max_between(us, start, day_end);
        let um = crate::aggregate::spec_max_between(us, day_end, end);
        &&& c.aggregates.max_uv_index@ == spec_dec_digits(
            if ut > um {
                ut
            } else {
                um
            },
        )
        &&& c.aggregates.max_uv_index_font_style@ == (if um >= ut {
            "italic"@
        } else {
            old_c.aggregates.max_uv_index_font_style@
        })
    })
    &&& ({
        let hs = crate::hourly::spec_humidity_samples(records);
        let ht = crate::aggregate::spec_max_between(hs, start, day_end);
        let hm = crate::aggregate::spec_max_between(hs, day_end, end);
        &&& c.aggregates.max_relative_humidity@ == spec_dec_digits(
            if ht > hm {
                ht
            } else {
                hm
            },
        )
        &&& c.aggregates.max_relative_humidity_font_style@ == (if hm >= ht {
            "italic"@
        } else {
            old_c.aggregates.max_relative_humidity_font_style@
        })
    })
    &&& c.aggregates.total_rain_today@ == spec_dec_digits(
        crate::aggregate::spec_sum_between(crate::hourly::spec_rain_samples(records), start, end),
    )
    &&& c.style == old_c.style
    &&& c.days@ == old_c.days@
    &&& c.sun == old_c.sun
    &&& c.graph == old_c.graph
}

/// A successful hourly phase: for some window start located by the finder,
/// the returned curves are the window's binned records and the context holds
/// the window's current-hour fields and aggregates.
pub open spec fn spec_hourly_phase_ok(
    c: Context,
    old_c: Context,
    records: Seq<crate::models::HourlyForecast>,
    now: int,
    off: int,
    use_gust: bool,
    unit: WindSpeedUnit,
    date_fmt: Seq<char>,
    time_fmt: Seq<char>,
    curves: crate::hourly::BinnedCurves,
) -> bool {
    exists|start: int|
        #![trigger crate::hourly::spec_binned_to(curves, records, start, start + 86400)]
        {
            &&& (exists|i: int|
                crate::hourly::spec_first_index_at_or_after(
                    records,
                    crate::timecalc::spec_hour_floor(now),
                    i,
                ) && start == records[i].time)
            &&& crate::timecalc::spec_day_of(start) == crate::timecalc::spec_day_of(now)
            &&& crate::hourly::spec_binned_to(curves, records, start, start + 86400)
            &&& spec_hourly_fields_applied(
                c,
                old_c,
                records,
                start,
                start + 86400,
                crate::timecalc::spec_local_day_end(start, off),
                now,
                off,
                use_gust,
                unit,
                date_fmt,
                time_fmt,
            )
        }
}

/// Everything but the banner is untouched.
pub open spec fn spec_same_data(a: Context, b: Context) -> bool {
    &&& a.style == b.style
    &&& a.days@ == b.days@
    &&& a.sun == b.sun
    &&& a.current == b.current
    &&& a.aggregates == b.aggregates
    &&& a.graph == b.graph
}

/// Builds the context: owns the output record and the diagnostics of the
/// current run.
pub struct ContextBuilder {
    /// The record being built.
    pub context: Context,
    /// The diagnostics of the current run.
    pub diagnostics: DiagnosticStack,
    /// The configured strftime pattern for the current date line.
    pub date_format: String,
    /// The configured strftime pattern for the current time line.
    pub time_format: String,
    /// Whether gusts stand in for sustained wind.
    pub use_gust: bool,
    /// The configured wind display unit.
    pub wind_unit: WindSpeedUnit,
}

impl ContextBuilder {
    /// The diagnostics collected so far this run.
    pub open spec fn spec_diagnostics(&self) -> Seq<DashboardError> {
        self.diagnostics@
    }

    /// The configured date pattern.
    pub open spec fn spec_date_format(&self) -> Seq<char> {
        self.date_format@
    }

    /// The configured time pattern.
    pub open spec fn spec_time_format(&self) -> Seq<char> {
        self.time_format@
    }

    /// Whether gusts stand in for sustained wind.
    pub open spec fn spec_use_gust(&self) -> bool {
        self.use_gust
    }

    /// The configured wind display unit.
    pub open spec fn spec_wind_unit(&self) -> WindSpeedUnit {
        self.wind_unit
    }

    /// The builder's configuration does not change between phases.
    pub open spec fn spec_same_options(&self, other: &ContextBuilder) -> bool {
        &&& self.spec_date_format() == other.spec_date_format()
        &&& self.spec_time_format() == other.spec_time_format()
        &&& self.spec_use_gust() == other.spec_use_gust()
        &&& self.spec_wind_unit() == other.spec_wind_unit()
    }

    /// Seeds a builder from explicit configuration: a default context and no
    /// diagnostics.
    pub fn new(colours: &Colours, options: &RenderOptions) -> (r: ContextBuilder)
        ensures
            spec_default_context(r.context, *colours, *options),
            r.spec_diagnostics() == Seq::<DashboardError>::empty(),
            r.spec_date_format() == options.date_format@,
            r.spec_time_format() == options.time_format@,
            r.spec_use_gust() == options.use_gust_instead_of_wind,
            r.spec_wind_unit() == options.wind_speed_unit,
    {
        ContextBuilder {
            context: Context::from_config(colours, options),
            diagnostics: DiagnosticStack::new(),
            date_format: options.date_format.clone(),
            time_format: options.time_format.clone(),
            use_gust: options.use_gust_instead_of_wind,
            wind_unit: options.wind_speed_unit,
        }
    }

    /// Re-derives the visible banner from the full diagnostic stack.
    fn update_warning_display(&mut self)
        requires
            old(self).spec_diagnostics().len() < 100000,
        ensures
            final(self).spec_diagnostics() == old(self).spec_diagnostics(),
            spec_banner_set(final(self).context.banner, final(self).spec_diagnostics()),
            old(self).spec_diagnostics().len() == 0 ==> final(self).context.banner
                .diagnostic_message == old(self).context.banner.diagnostic_message,
            spec_same_data(final(self).context, old(self).context),
            final(self).spec_same_options(old(self)),
    {
        let (visible, message, svg) = self.diagnostics.render();
        if visible {
            self.context.banner.diagnostic_message = message;
            self.context.banner.diagnostic_visibility = "visible".to_owned();
            self.context.banner.diagnostic_icons_svg = svg;
        } else {
            self.context.banner.diagnostic_visibility = "hidden".to_owned();
            self.context.banner.diagnostic_icons_svg = svg;
        }
    }

    /// Records a validation problem found while building: the diagnostic
    /// joins the stack and the banner is re-derived.
    pub fn with_validation_error(&mut self, error: DashboardError)
        requires
            old(self).spec_diagnostics().len() < 99999,
        ensures
            final(self).spec_diagnostics() == old(self).spec_diagnostics().push(error),
            spec_banner_set(final(self).context.banner, final(self).spec_diagnostics()),
            spec_same_data(final(self).context, old(self).context),
            final(self).spec_same_options(old(self)),
    {
        self.diagnostics.push(error);
        self.update_warning_display();
    }

    /// Appends a warning forwarded from an external source (the caller has
    /// already logged it); the banner is re-derived.
    pub fn with_warning(&mut self, warning: DashboardError)
        requires
            old(self).spec_diagnostics().len() < 99999,
        ensures
            final(self).spec_diagnostics() == old(self).spec_diagnostics().push(warning),
            spec_banner_set(final(self).context.banner, final(self).spec_diagnostics()),
            spec_same_data(final(self).context, old(self).context),
            final(self).spec_same_options(old(self)),
    {
        self.diagnostics.push(warning);
        self.update_warning_display();
    }

    /// Ingests the daily series: day names from the local calendar, the
    /// 7-slot window filled from the records (missing dates render "NA"
    /// placeholders), sunrise and sunset from today's record, and — when any
    /// window date is missing — exactly one aggregated incomplete-data
    /// diagnostic, however many dates are missing.
    pub fn with_daily_forecast_data(&mut self, records: &Vec<DailyForecast>, clock: &Clock)
        requires
            old(self).spec_diagnostics().len() < 99999,
            spec_daily_records_wf(records@),
        ensures
            ({
                let today = spec_local_secs(clock.spec_now_utc(), clock.spec_offset()) / 86400;
                let missing = crate::daily::spec_missing_in_window(records@, today, 7);
                let n0 = old(self).spec_diagnostics().len() as int;
                &&& spec_daily_fields_applied(
                    final(self).context,
                    old(self).context,
                    records@,
                    today,
                )
                &&& missing > 0 ==> {
                    &&& final(self).spec_diagnostics().len() == n0 + 1
                    &&& final(self).spec_diagnostics().take(n0) == old(self).spec_diagnostics()
                    &&& final(self).spec_diagnostics().last() matches
                        DashboardError::IncompleteData { details } && details@
                        == spec_missing_details(missing)
                    &&& spec_banner_set(
                        final(self).context.banner,
                        final(self).spec_diagnostics(),
                    )
                }
                &&& missing == 0 ==> final(self).spec_diagnostics() == old(
                    self,
                ).spec_diagnostics() && final(self).context.banner == old(self).context.banner
            }),
            final(self).context.style == old(self).context.style,
            final(self).context.current == old(self).context.current,
            final(self).context.aggregates == old(self).context.aggregates,
            final(self).context.graph == old(self).context.graph,
            final(self).spec_same_options(old(self)),
    {
        let now_local = clock.now_local();
        let today = now_local / 86400;
        let ghost today_g = today as int;
        let window = build_window(today);
        let mapping = map_records(records, &window);
        let (summaries, missing) = assign(records, &mapping);
        let mut days: Vec<DayCard> = Vec::new();
        let mut i: usize = 0;
        while i < 7
            invariant
                i <= 7,
                0 <= today_g < 3000000,
                today == today_g,
                summaries@.len() == 7,
                days@.len() == i,
                forall|k: int|
                    0 <= k < i ==> (#[trigger] days@[k]).mintemp@ == summaries@[k].min_temp@,
                forall|k: int|
                    0 <= k < i ==> (#[trigger] days@[k]).maxtemp@ == summaries@[k].max_temp@,
                forall|k: int| 0 <= k < i ==> (#[trigger] days@[k]).icon@ == summaries@[k].icon@,
                forall|k: int|
                    0 <= k < i ==> (#[trigger] days@[k]).name@ == (if k == 0 {
                        "Today"@
                    } else {
                        spec_weekday_abbrev(today_g + k)
                    }),
            decreases 7 - i,
        {
            let name = if i == 0 {
                "Today".to_owned()
            } else {
                weekday_abbrev(today + (i as i64)).to_owned()
            };
            let s = &summaries[i];
            days.push(
                DayCard {
                    mintemp: s.min_temp.clone(),
                    maxtemp: s.max_temp.clone(),
                    icon: s.icon.clone(),
                    name,
                },
            );
            i += 1;
        }
        self.context.days = days;
        match &mapping[0] {
            Some(k) => {
                let rec = &records[*k];
                if rec.astronomical.is_some() {
                    assert(rec.wf());
                    let (sunrise, sunset) = extract_sun_times(&rec.astronomical);
                    self.context.sun.sunrise_time = sunrise;
                    self.context.sun.sunset_time = sunset;
                }
            },
            None => {},
        }
        proof {
            crate::daily::lemma_missing_count_bridge(records@, mapping@, today_g, 7);
            assert forall|k: int| 0 <= k < 7 implies (#[trigger] self.context.days@[k]).mintemp@
                == crate::daily::spec_date_min(records@, today_g + k) && self.context.days@[k]
                .maxtemp@ == crate::daily::spec_date_max(records@, today_g + k) && self.context
                .days@[k].icon@ == crate::daily::spec_date_icon(records@, today_g + k) by {
                assert(window@[k] == today_g + k);
                match mapping@[k] {
                    Some(idx) => {
                        assert(Some(idx as int) == spec_last_match(records@, today_g + k));
                    },
                    None => {
                        assert(spec_last_match(records@, today_g + k) is None);
                    },
                }
            }
        }
        if missing > 0 {
            let mut details = "Missing ".to_owned();
            let num = u64_to_string(missing);
            details.append(num.as_str());
            details.append(" day(s) of daily forecast data, using incomplete data");
            proof {
                assert(details@ =~= spec_missing_details(
                    crate::daily::spec_missing_in_window(records@, today_g, 7),
                ));
            }
            self.with_validation_error(DashboardError::IncompleteData { details });
        }
    }

    /// Ingests the hourly series. When a usable 24h window exists, bins its
    /// records into the per-hour curves (returned for the graph renderer),
    /// fills the current-hour fields from the first in-window record, and
    /// writes the today/tomorrow maxima and the rain total. When no usable
    /// window exists, emits one incomplete-data diagnostic and leaves the
    /// hourly fields at their defaults.
    pub fn with_hourly_forecast_data(
        &mut self,
        records: &Vec<crate::models::HourlyForecast>,
        clock: &Clock,
    ) -> (r: Option<crate::hourly::BinnedCurves>)
        requires
            old(self).spec_diagnostics().len() < 99999,
            crate::hourly::spec_hourly_wf(records@),
            records@.len() <= 1000000000,
        ensures
            r is Some <==> exists|i: int|
                crate::hourly::spec_first_index_at_or_after(
                    records@,
                    crate::timecalc::spec_hour_floor(clock.spec_now_utc()),
                    i,
                ) && crate::timecalc::spec_day_of(records@[i].time as int)
                    == crate::timecalc::spec_day_of(clock.spec_now_utc()),
            r is None ==> ({
                let n0 = old(self).spec_diagnostics().len() as int;
                &&& final(self).spec_diagnostics().len() == n0 + 1
                &&& final(self).spec_diagnostics().take(n0) == old(self).spec_diagnostics()
                &&& final(self).spec_diagnostics().last() matches DashboardError::IncompleteData {
                    details,
                } && details@
                    == "No hourly forecast data available, Could Not find a date later than the current date"@
                &&& spec_banner_set(final(self).context.banner, final(self).spec_diagnostics())
                &&& spec_same_data(final(self).context, old(self).context)
                &&& final(self).spec_same_options(old(self))
            }),
            r matches Some(curves) ==> spec_hourly_phase_ok(
                final(self).context,
                old(self).context,
                records@,
                clock.spec_now_utc(),
                clock.spec_offset(),
                old(self).spec_use_gust(),
                old(self).spec_wind_unit(),
                old(self).spec_date_format(),
                old(self).spec_time_format(),
                curves,
            ),
            r is Some ==> final(self).spec_diagnostics() == old(self).spec_diagnostics()
                && final(self).context.banner == old(self).context.banner
                && final(self).spec_same_options(old(self)),
    {
        match crate::hourly::find_forecast_window(records, clock) {
            None => {
                let details =
                    "No hourly forecast data available, Could Not find a date later than the current date".to_owned();
                self.with_validation_error(DashboardError::IncompleteData { details });
                None
            },
            Some((start, end)) => {
                proof {
                    let i = choose|i: int|
                        crate::hourly::spec_first_index_at_or_after(
                            records@,
                            crate::timecalc::spec_hour_floor(clock.spec_now_utc()),
                            i,
                        ) && start == records@[i].time && crate::timecalc::spec_day_of(
                            start as int,
                        ) == crate::timecalc::spec_day_of(clock.spec_now_utc()) && end == start
                            + 86400;
                    assert(records@[i].wf());
                }
                let off = clock.offset();
                let day_end = crate::timecalc::local_day_end(start, off);
                let curves = crate::hourly::bin_hourly(records, start, end);
                match crate::hourly::first_in_window(records, start, end) {
                    Some(rec) => {
                        proof {
                            let k = choose|k: int|
                                0 <= k < records@.len() && records@[k] == *rec;
                            assert(records@[k].wf());
                        }
                        self.context.current.current_hour_actual_temp =
                            crate::numfmt::i64_to_string(rec.temperature);
                        self.context.current.current_hour_weather_icon =
                            rec.get_icon_path().to_owned();
                        self.context.current.current_hour_feels_like =
                            crate::numfmt::i64_to_string(rec.apparent_temperature);
                        self.context.current.current_hour_rain_amount = u64_to_string(
                            rec.precipitation.calculate_median(),
                        );
                        self.context.current.current_hour_rain_measure_icon =
                            rec.precipitation.get_icon_path().to_owned();
                        self.context.current.current_hour_wind_speed = u64_to_string(
                            rec.wind.get_speed_in_unit(self.use_gust, self.wind_unit),
                        );
                        self.context.current.current_hour_wind_icon = rec.wind.get_icon_path();
                        self.context.current.current_hour_uv_index = u64_to_string(rec.uv_index);
                        self.context.current.current_hour_uv_index_icon =
                            crate::models::uv_index_icon_path(rec.uv_index).to_owned();
                        self.context.current.current_hour_relative_humidity = u64_to_string(
                            rec.relative_humidity,
                        );
                        self.context.current.current_hour_relative_humidity_icon =
                            crate::models::relative_humidity_icon_path(
                                rec.relative_humidity,
                            ).to_owned();
                        let date_fmt = self.date_format.clone();
                        self.context.current.current_day_date =
                            match clock.format_local(date_fmt.as_str()) {
                            Some(s) => s,
                            None => "NA".to_owned(),
                        };
                        let time_fmt = self.time_format.clone();
                        self.context.current.current_day_time =
                            match clock.format_local(time_fmt.as_str()) {
                            Some(s) => s,
                            None => "NA".to_owned(),
                        };
                    },
                    None => {},
                }
                let ws = crate::hourly::wind_samples(records, self.use_gust);
                let wt = crate::aggregate::find_max_item_between_dates(&ws, start, day_end);
                let wm = crate::aggregate::find_max_item_between_dates(&ws, day_end, end);
                let (wsel, witalic) = crate::aggregate::select_display_max(wt, wm);
                let wconv = crate::models::Wind::convert_speed(wsel as u64, self.wind_unit);
                self.context.aggregates.max_gust_speed = u64_to_string(wconv);
                if witalic {
                    self.context.aggregates.max_gust_speed_font_style = "italic".to_owned();
                }
                let us = crate::hourly::uv_samples(records);
                let ut = crate::aggregate::find_max_item_between_dates(&us, start, day_end);
                let um = crate::aggregate::find_max_item_between_dates(&us, day_end, end);
                let (usel, uitalic) = crate::aggregate::select_display_max(ut, um);
                self.context.aggregates.max_uv_index = u64_to_string(usel as u64);
                if uitalic {
                    self.context.aggregates.max_uv_index_font_style = "italic".to_owned();
                }
                let hs = crate::hourly::humidity_samples(records);
                let ht = crate::aggregate::find_max_item_between_dates(&hs, start, day_end);
                let hm = crate::aggregate::find_max_item_between_dates(&hs, day_end, end);
                let (hsel, hitalic) = crate::aggregate::select_display_max(ht, hm);
                self.context.aggregates.max_relative_humidity = u64_to_string(hsel as u64);
                if hitalic {
                    self.context.aggregates.max_relative_humidity_font_style = "italic".to_owned();
                }
                let rs = crate::hourly::rain_median_samples(records);
                let total = crate::aggregate::get_total_between_dates(&rs, start, end);
                self.context.aggregates.total_rain_today = u64_to_string(total as u64);
                Some(curves)
            },
        }
    }

    /// Merges the graph renderer's output into the context.
    pub fn with_graph_output(&mut self, graph: GraphOutput)
        ensures
            final(self).context.graph == graph,
            final(self).context.style == old(self).context.style,
            final(self).context.days@ == old(self).context.days@,
            final(self).context.sun == old(self).context.sun,
            final(self).context.current == old(self).context.current,
            final(self).context.aggregates == old(self).context.aggregates,
            final(self).context.banner == old(self).context.banner,
            final(self).spec_diagnostics() == old(self).spec_diagnostics(),
            final(self).spec_same_options(old(self)),
    {
        self.context.graph = graph;
    }
}

/// A successful hourly phase survives banner-only changes to the context.
proof fn lemma_hourly_phase_same_data(
    a: Context,
    b: Context,
    old_c: Context,
    records: Seq<crate::models::HourlyForecast>,
    now: int,
    off: int,
    use_gust: bool,
    unit: WindSpeedUnit,
    date_fmt: Seq<char>,
    time_fmt: Seq<char>,
    curves: crate::hourly::BinnedCurves,
)
    requires
        spec_hourly_phase_ok(a, old_c, records, now, off, use_gust, unit, date_fmt, time_fmt, curves),
        spec_same_data(b, a),
    ensures
        spec_hourly_phase_ok(b, old_c, records, now, off, use_gust, unit, date_fmt, time_fmt, curves),
{
    let start = choose|start: int|
        #![trigger crate::hourly::spec_binned_to(curves, records, start, start + 86400)]
        {
            &&& (exists|i: int|
                crate::hourly::spec_first_index_at_or_after(
                    records,
                    crate::timecalc::spec_hour_floor(now),
                    i,
                ) && start == records[i].time)
            &&& crate::timecalc::spec_day_of(start) == crate::timecalc::spec_day_of(now)
            &&& crate::hourly::spec_binned_to(curves, records, start, start + 86400)
            &&& spec_hourly_fields_applied(
                a,
                old_c,
                records,
                start,
                start + 86400,
                crate::timecalc::spec_local_day_end(start, off),
                now,
                off,
                use_gust,
                unit,
                date_fmt,
                time_fmt,
            )
        };
    assert(spec_hourly_fields_applied(
        b,
        old_c,
        records,
        start,
        start + 86400,
        crate::timecalc::spec_local_day_end(start, off),
        now,
        off,
        use_gust,
        unit,
        date_fmt,
        time_fmt,
    ));
    assert(crate::hourly::spec_binned_to(curves, records, start, start + 86400));
}

/// Runs the builder's data phases in order: the daily series, the hourly
/// series, then every externally supplied warning — the prior cycle's update
/// failure first, then the providers' warnings. No problem aborts the run;
/// each becomes a diagnostic and the banner reflects the full stack.
pub fn update_forecast_context(
    builder: &mut ContextBuilder,
    clock: &Clock,
    daily_result: &crate::models::ForecastResult<DailyForecast>,
    hourly_result: &crate::models::ForecastResult<crate::models::HourlyForecast>,
    last_update_error: Option<String>,
) -> (r: Option<crate::hourly::BinnedCurves>)
    requires
        old(builder).spec_diagnostics().len() < 99990,
        spec_daily_records_wf(daily_result.data@),
        crate::hourly::spec_hourly_wf(hourly_result.data@),
        hourly_result.data@.len() <= 1000000000,
    ensures
        ({
            let today = spec_local_secs(clock.spec_now_utc(), clock.spec_offset()) / 86400;
            spec_daily_fields_applied(
                final(builder).context,
                old(builder).context,
                daily_result.data@,
                today,
            )
        }),
        r is Some <==> exists|i: int|
            crate::hourly::spec_first_index_at_or_after(
                hourly_result.data@,
                crate::timecalc::spec_hour_floor(clock.spec_now_utc()),
                i,
            ) && crate::timecalc::spec_day_of(hourly_result.data@[i].time as int)
                == crate::timecalc::spec_day_of(clock.spec_now_utc()),
        r matches Some(curves) ==> exists|mid: Context|
            #![trigger spec_hourly_phase_ok(
                final(builder).context,
                mid,
                hourly_result.data@,
                clock.spec_now_utc(),
                clock.spec_offset(),
                old(builder).spec_use_gust(),
                old(builder).spec_wind_unit(),
                old(builder).spec_date_format(),
                old(builder).spec_time_format(),
                curves,
            )]
            spec_hourly_phase_ok(
                final(builder).context,
                mid,
                hourly_result.data@,
                clock.spec_now_utc(),
                clock.spec_offset(),
                old(builder).spec_use_gust(),
                old(builder).spec_wind_unit(),
                old(builder).spec_date_format(),
                old(builder).spec_time_format(),
                curves,
            ),
        ({
            let today = spec_local_secs(clock.spec_now_utc(), clock.spec_offset()) / 86400;
            let d0 = old(builder).spec_diagnostics();
            let dn = final(builder).spec_diagnostics();
            let miss = crate::daily::spec_missing_in_window(daily_result.data@, today, 7);
            let p0 = d0.len() as int;
            let p1 = p0 + if miss > 0 {
                1int
            } else {
                0int
            };
            let p2 = p1 + if r is Some {
                0int
            } else {
                1int
            };
            let p3 = p2 + if last_update_error is Some {
                1int
            } else {
                0int
            };
            let p4 = p3 + if daily_result.warning is Some {
                1int
            } else {
                0int
            };
            &&& dn.len() == p4 + if hourly_result.warning is Some {
                1int
            } else {
                0int
            }
            &&& dn.take(p0) == d0
            &&& miss > 0 ==> (dn[p0] matches DashboardError::IncompleteData { details } && details@
                == spec_missing_details(miss))
            &&& r is None ==> (dn[p1] matches DashboardError::IncompleteData { details } && details@
                == "No hourly forecast data available, Could Not find a date later than the current date"@)
            &&& last_update_error matches Some(d) ==> (dn[p2] matches
                DashboardError::UpdateFailed { details } && details@ == d@)
            &&& daily_result.warning matches Some(w) ==> dn[p3] == w
            &&& hourly_result.warning matches Some(w) ==> dn[p4] == w
            &&& dn.len() == p0 ==> final(builder).context.banner == old(builder).context.banner
            &&& dn.len() > p0 ==> spec_banner_set(final(builder).context.banner, dn)
        }),
        final(builder).context.style == old(builder).context.style,
        final(builder).context.graph == old(builder).context.graph,
        final(builder).spec_same_options(old(builder)),
{
    proof {
        crate::daily::lemma_missing_in_window_bounds(
            daily_result.data@,
            spec_local_secs(clock.spec_now_utc(), clock.spec_offset()) / 86400,
            7,
        );
    }
    builder.with_daily_forecast_data(&daily_result.data, clock);
    let ghost mid = builder.context;
    let curves = builder.with_hourly_forecast_data(&hourly_result.data, clock);
    let ghost after_hourly = builder.context;
    match last_update_error {
        Some(details) => {
            builder.with_warning(DashboardError::UpdateFailed { details });
        },
        None => {},
    }
    match &daily_result.warning {
        Some(w) => {
            builder.with_warning(w.clone());
        },
        None => {},
    }
    match &hourly_result.warning {
        Some(w) => {
            builder.with_warning(w.clone());
        },
        None => {},
    }
    proof {
        match &curves {
            Some(cv) => {
                lemma_hourly_phase_same_data(
                    after_hourly,
                    builder.context,
                    mid,
                    hourly_result.data@,
                    clock.spec_now_utc(),
                    clock.spec_offset(),
                    old(builder).spec_use_gust(),
                    old(builder).spec_wind_unit(),
                    old(builder).spec_date_format(),
                    old(builder).spec_time_format(),
                    *cv,
                );
            },
            None => {},
        }
    }
    curves
}

} // verus!
