//! The forecast records the dashboard is built from, as plain values.
//!
//! Times are UTC seconds since the epoch, dates are day numbers, temperatures
//! are whole degrees, wind speeds are whole km/h, rain amounts are tenths of a
//! millimetre. Each record type has a well-formedness predicate that bounds
//! its fields so that the aggregation arithmetic downstream cannot overflow.

use vstd::prelude::*;
use crate::diagnostics::DashboardError;

use crate::settings::WindSpeedUnit;
use crate::timecalc::valid_timestamp;

verus! {

/// The icon shown wherever a value or a record is missing.
pub fn not_available_icon_path() -> (r: &'static str)
    ensures
        r@ == "static/weather_icons/not-available.svg"@,
{
    "static/weather_icons/not-available.svg"
}

/// Sunrise and sunset icons for the day-one card.
pub enum SunPositionIconName {
    Sunrise,
    Sunset,
}

impl SunPositionIconName {
    /// The icon path for this sun position.
    pub fn get_icon_path(&self) -> (r: &'static str)
        ensures
            *self is Sunrise ==> r@ == "static/weather_icons/sunrise.svg"@,
            *self is Sunset ==> r@ == "static/weather_icons/sunset.svg"@,
    {
        match self {
            SunPositionIconName::Sunrise => "static/weather_icons/sunrise.svg",
            SunPositionIconName::Sunset => "static/weather_icons/sunset.svg",
        }
    }
}

/// Wind at one hour: sustained speed and gust speed in km/h, direction in
/// degrees clockwise from north.
pub struct Wind {
    pub speed: u64,
    pub gust: u64,
    pub direction: u64,
}

/// Wind speed converted from km/h to a display unit, in whole units:
/// 1 km/h = 0.621 mph = 0.540 knots, truncated.
pub open spec fn spec_convert_speed(v: int, unit: WindSpeedUnit) -> int {
    match unit {
        WindSpeedUnit::KmH => v,
        WindSpeedUnit::Mph => (v * 621) / 1000,
        WindSpeedUnit::Knots => (v * 540) / 1000,
    }
}

/// The compass-sector icon name for a wind direction in degrees.
pub open spec fn spec_wind_sector_name(direction: int) -> Seq<char> {
    let sector = (((direction % 360) + 22) / 45) % 8;
    if sector == 0 {
        "n"@
    } else if sector == 1 {
        "ne"@
    } else if sector == 2 {
        "e"@
    } else if sector == 3 {
        "se"@
    } else if sector == 4 {
        "s"@
    } else if sector == 5 {
        "sw"@
    } else if sector == 6 {
        "w"@
    } else {
        "nw"@
    }
}

impl Wind {
    /// Fields bounded so unit conversion and aggregation cannot overflow.
    pub open spec fn wf(&self) -> bool {
        self.speed <= 1000000 && self.gust <= 1000000
    }

    /// The speed to display: the gust when configured, else the sustained
    /// speed.
    pub fn get_speed(&self, use_gust: bool) -> (r: u64)
        ensures
            r == (if use_gust {
                self.gust
            } else {
                self.speed
            }),
    {
        if use_gust {
            self.gust
        } else {
            self.speed
        }
    }

    /// Converts a km/h speed to the configured display unit, truncating to
    /// whole units.
    pub fn convert_speed(speed: u64, unit: WindSpeedUnit) -> (r: u64)
        requires
            speed <= 1000000,
        ensures
            r as int == spec_convert_speed(speed as int, unit),
    {
        match unit {
            WindSpeedUnit::KmH => speed,
            WindSpeedUnit::Mph => (speed * 621) / 1000,
            WindSpeedUnit::Knots => (speed * 540) / 1000,
        }
    }

    /// The displayed speed in the configured unit.
    pub fn get_speed_in_unit(&self, use_gust: bool, unit: WindSpeedUnit) -> (r: u64)
        requires
            self.wf(),
        ensures
            r as int == spec_convert_speed(
                if use_gust {
                    self.gust as int
                } else {
                    self.speed as int
                },
                unit,
            ),
    {
        Self::convert_speed(self.get_speed(use_gust), unit)
    }

    /// The compass icon for this wind's direction.
    pub fn get_icon_path(&self) -> (r: String)
        ensures
            r@ == "static/weather_icons/wind-"@ + spec_wind_sector_name(self.direction as int)
                + ".svg"@,
    {
        let sector = (((self.direction % 360) + 22) / 45) % 8;
        let name = match sector {
            0 => "n",
            1 => "ne",
            2 => "e",
            3 => "se",
            4 => "s",
            5 => "sw",
            6 => "w",
            _ => "nw",
        };
        let mut s = "static/weather_icons/wind-".to_owned();
        s.append(name);
        s.append(".svg");
        proof {
            assert(s@ =~= "static/weather_icons/wind-"@ + spec_wind_sector_name(
                self.direction as int,
            ) + ".svg"@);
        }
        s
    }
}

/// Rain at one hour: chance in percent and a forecast amount range in tenths
/// of a millimetre.
pub struct Precipitation {
    pub chance: Option<u8>,
    pub amount_min: u64,
    pub amount_max: u64,
}

/// The midpoint of a forecast rain range, truncated to tenths of a
/// millimetre.
pub open spec fn spec_precip_median(p: Precipitation) -> int {
    (p.amount_min + p.amount_max) / 2
}

impl Precipitation {
    /// Fields bounded so sums over a day of rain cannot overflow.
    pub open spec fn wf(&self) -> bool {
        &&& self.amount_min <= self.amount_max
        &&& self.amount_max <= 1000000
        &&& match self.chance {
            Some(c) => c <= 100,
            None => true,
        }
    }

    /// The midpoint of the forecast amount range.
    pub fn calculate_median(&self) -> (r: u64)
        requires
            self.wf(),
        ensures
            r as int == spec_precip_median(*self),
            r <= 1000000,
    {
        (self.amount_min + self.amount_max) / 2
    }

    /// The rain-measure icon, graded by the chance of rain.
    pub fn get_icon_path(&self) -> (r: &'static str)
        ensures
            r@ == spec_precip_icon_path(*self),
    {
        match self.chance {
            None => "static/weather_icons/rain-none.svg",
            Some(c) => {
                if c == 0 {
                    "static/weather_icons/rain-none.svg"
                } else if c < 50 {
                    "static/weather_icons/rain-light.svg"
                } else if c < 80 {
                    "static/weather_icons/rain-moderate.svg"
                } else {
                    "static/weather_icons/rain-heavy.svg"
                }
            },
        }
    }
}

/// The rain-measure icon path for a chance of rain: none, light below 50%,
/// moderate below 80%, else heavy.
pub open spec fn spec_precip_icon_path(p: Precipitation) -> Seq<char> {
    match p.chance {
        None => "static/weather_icons/rain-none.svg"@,
        Some(c) => if c == 0 {
            "static/weather_icons/rain-none.svg"@
        } else if c < 50 {
            "static/weather_icons/rain-light.svg"@
        } else if c < 80 {
            "static/weather_icons/rain-moderate.svg"@
        } else {
            "static/weather_icons/rain-heavy.svg"@
        },
    }
}

/// The UV-index icon path, graded by the WHO exposure bands.
pub open spec fn spec_uv_icon_path(uv: int) -> Seq<char> {
    if uv <= 2 {
        "static/weather_icons/uv-low.svg"@
    } else if uv <= 5 {
        "static/weather_icons/uv-moderate.svg"@
    } else if uv <= 7 {
        "static/weather_icons/uv-high.svg"@
    } else if uv <= 10 {
        "static/weather_icons/uv-very-high.svg"@
    } else {
        "static/weather_icons/uv-extreme.svg"@
    }
}

/// The icon for a UV index reading.
pub fn uv_index_icon_path(uv: u64) -> (r: &'static str)
    ensures
        r@ == spec_uv_icon_path(uv as int),
{
    if uv <= 2 {
        "static/weather_icons/uv-low.svg"
    } else if uv <= 5 {
        "static/weather_icons/uv-moderate.svg"
    } else if uv <= 7 {
        "static/weather_icons/uv-high.svg"
    } else if uv <= 10 {
        "static/weather_icons/uv-very-high.svg"
    } else {
        "static/weather_icons/uv-extreme.svg"
    }
}

/// The relative-humidity icon path: dry below 30%, comfortable to 60%, else
/// humid.
pub open spec fn spec_humidity_icon_path(h: int) -> Seq<char> {
    if h < 30 {
        "static/weather_icons/humidity-dry.svg"@
    } else if h <= 60 {
        "static/weather_icons/humidity-comfortable.svg"@
    } else {
        "static/weather_icons/humidity-humid.svg"@
    }
}

/// The icon for a relative-humidity reading.
pub fn relative_humidity_icon_path(h: u64) -> (r: &'static str)
    ensures
        r@ == spec_humidity_icon_path(h as int),
{
    if h < 30 {
        "static/weather_icons/humidity-dry.svg"
    } else if h <= 60 {
        "static/weather_icons/humidity-comfortable.svg"
    } else {
        "static/weather_icons/humidity-humid.svg"
    }
}

/// One hourly forecast record. Records arrive sorted ascending by time.
pub struct HourlyForecast {
    /// UTC seconds since the epoch.
    pub time: i64,
    /// Whole degrees in the configured unit.
    pub temperature: i64,
    /// Whole degrees in the configured unit.
    pub apparent_temperature: i64,
    pub wind: Wind,
    pub precipitation: Precipitation,
    pub uv_index: u64,
    pub relative_humidity: u64,
    /// The weather icon selected by the provider for this hour.
    pub icon: String,
}

impl HourlyForecast {
    /// Fields bounded for display and aggregation.
    pub open spec fn wf(&self) -> bool {
        &&& valid_timestamp(self.time as int)
        &&& -10000 <= self.temperature <= 10000
        &&& -10000 <= self.apparent_temperature <= 10000
        &&& self.wind.wf()
        &&& self.precipitation.wf()
        &&& self.uv_index <= 100
        &&& self.relative_humidity <= 100
    }

    /// The provider's weather icon for this hour.
    pub fn get_icon_path(&self) -> (r: &str)
        ensures
            r@ == self.icon@,
    {
        self.icon.as_str()
    }
}

/// Sunrise and sunset for one day, as local wall-clock seconds since the
/// epoch, where known.
pub struct Astronomical {
    pub sunrise_time: Option<i64>,
    pub sunset_time: Option<i64>,
}

impl Astronomical {
    /// Known times are in calendar range.
    pub open spec fn wf(&self) -> bool {
        &&& match self.sunrise_time {
            Some(t) => 0 <= t,
            None => true,
        }
        &&& match self.sunset_time {
            Some(t) => 0 <= t,
            None => true,
        }
    }
}

/// One daily forecast record. A record may lack its date (it is then
/// dropped), and may lack either temperature (rendered "NA").
pub struct DailyForecast {
    /// The local calendar date as a day number, where the provider gave one.
    pub date: Option<i64>,
    pub temp_min: Option<i64>,
    pub temp_max: Option<i64>,
    pub astronomical: Option<Astronomical>,
    /// The weather icon selected by the provider for this day.
    pub icon: String,
}

impl DailyForecast {
    /// Fields bounded for display.
    pub open spec fn wf(&self) -> bool {
        &&& match self.date {
            Some(d) => 0 <= d < 3000000,
            None => true,
        }
        &&& match self.temp_min {
            Some(t) => -10000 <= t <= 10000,
            None => true,
        }
        &&& match self.temp_max {
            Some(t) => -10000 <= t <= 10000,
            None => true,
        }
        &&& match self.astronomical {
            Some(a) => a.wf(),
            None => true,
        }
    }

    /// The provider's weather icon for this day.
    pub fn get_icon_path(&self) -> (r: &str)
        ensures
            r@ == self.icon@,
    {
        self.icon.as_str()
    }
}

/// What a provider fetch delivers: the records plus at most one warning
/// (typically that cached data was substituted).
pub struct ForecastResult<T> {
    pub data: Vec<T>,
    pub warning: Option<DashboardError>,
}

} // verus!
