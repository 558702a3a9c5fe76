//! Validated configuration values for the dashboard.
//!
//! Loading and deserializing configuration files is I/O and stays outside the
//! library; what arrives here is plain values, validated by the constructors
//! below, so every configured value the rendering logic reads carries its
//! invariant.

use vstd::prelude::*;

verus! {

/// Why a configuration value was rejected.
#[derive(Debug)]
pub enum ValidationError {
    /// Not a `#RRGGBB` hex colour.
    InvalidColour,
    /// Not exactly six characters.
    InvalidGeoHashLength,
    /// A negative interval.
    NegativeInterval,
}

/// The forecast providers the dashboard can be configured with.
#[derive(Clone, Copy, PartialEq, Eq, Structural)]
pub enum Providers {
    Bom,
    OpenMeteo,
}

impl Providers {
    /// The provider's display name.
    pub fn label(&self) -> (r: &'static str)
        ensures
            *self is Bom ==> r@ == "Bom"@,
            *self is OpenMeteo ==> r@ == "OpenMeteo"@,
    {
        match self {
            Providers::Bom => "Bom",
            Providers::OpenMeteo => "OpenMeteo",
        }
    }
}

/// The unit temperatures are displayed in.
#[derive(Clone, Copy, PartialEq, Eq, Structural)]
pub enum TemperatureUnit {
    C,
    F,
}

impl TemperatureUnit {
    /// The unit symbol written next to temperatures.
    pub fn label(&self) -> (r: &'static str)
        ensures
            *self is C ==> r@ == "C"@,
            *self is F ==> r@ == "F"@,
    {
        match self {
            TemperatureUnit::C => "C",
            TemperatureUnit::F => "F",
        }
    }
}

/// The unit wind speeds are displayed in. Providers deliver km/h.
#[derive(Clone, Copy, PartialEq, Eq, Structural)]
pub enum WindSpeedUnit {
    KmH,
    Mph,
    Knots,
}

impl WindSpeedUnit {
    /// The unit label written next to wind speeds.
    pub fn label(&self) -> (r: &'static str)
        ensures
            *self is KmH ==> r@ == "km/h"@,
            *self is Mph ==> r@ == "mph"@,
            *self is Knots ==> r@ == "knots"@,
    {
        match self {
            WindSpeedUnit::KmH => "km/h",
            WindSpeedUnit::Mph => "mph",
            WindSpeedUnit::Knots => "knots",
        }
    }
}

/// A character that may appear after the `#` of a hex colour.
pub open spec fn spec_is_hex_digit(c: char) -> bool {
    ('0' <= c && c <= '9') || ('a' <= c && c <= 'f') || ('A' <= c && c <= 'F')
}

/// A `#RRGGBB` hex colour string.
pub open spec fn spec_valid_colour(s: Seq<char>) -> bool {
    s.len() == 7 && s[0] == '#' && forall|i: int| 1 <= i < 7 ==> spec_is_hex_digit(#[trigger] s[i])
}

/// A display colour, validated to be a `#RRGGBB` hex string.
pub struct Colour {
    value: String,
}

impl Colour {
    /// The colour string this value was validated from.
    pub closed spec fn spec_value(&self) -> Seq<char> {
        self.value@
    }

    /// Validates a colour string: accepted exactly when it is `#` followed by
    /// six hex digits.
    pub fn new(value: String) -> (r: Result<Colour, ValidationError>)
        ensures
            r is Ok <==> spec_valid_colour(value@),
            r is Ok ==> r->Ok_0.spec_value() == value@,
    {
        if !value.as_str().is_ascii() {
            proof {
                assert(!spec_valid_colour(value@)) by {
                    if spec_valid_colour(value@) {
                        assert(forall|i: int|
                            0 <= i < value@.len() ==> (#[trigger] value@[i]) < 128) by {
                            assert forall|i: int|
                                0 <= i < value@.len() implies (#[trigger] value@[i]) < 128 by {
                                if i >= 1 {
                                    assert(spec_is_hex_digit(value@[i]));
                                }
                            }
                        }
                    }
                }
            }
            return Err(ValidationError::InvalidColour);
        }
        let s = value.as_str();
        if s.unicode_len() != 7 {
            return Err(ValidationError::InvalidColour);
        }
        if s.get_char(0) != '#' {
            return Err(ValidationError::InvalidColour);
        }
        let mut i: usize = 1;
        while i < 7
            invariant
                1 <= i <= 7,
                s@ == value@,
                s@.len() == 7,
                s.is_ascii(),
                forall|k: int| 1 <= k < i ==> spec_is_hex_digit(#[trigger] s@[k]),
            decreases 7 - i,
        {
            let c = s.get_char(i);
            let ok = ('0' <= c && c <= '9') || ('a' <= c && c <= 'f') || ('A' <= c && c <= 'F');
            if !ok {
                return Err(ValidationError::InvalidColour);
            }
            i += 1;
        }
        Ok(Colour { value })
    }

    /// The validated colour string.
    pub fn value(&self) -> (r: &str)
        ensures
            r@ == self.spec_value(),
    {
        self.value.as_str()
    }
}

/// A geohash-shaped location code: exactly six characters.
pub struct GeoHash {
    value: String,
}

impl GeoHash {
    /// The code this value was validated from.
    pub closed spec fn spec_value(&self) -> Seq<char> {
        self.value@
    }

    /// Validates a geohash code: accepted exactly when it has six characters.
    pub fn new(value: String) -> (r: Result<GeoHash, ValidationError>)
        ensures
            r is Ok <==> value@.len() == 6,
            r is Ok ==> r->Ok_0.spec_value() == value@,
    {
        if value.as_str().unicode_len() == 6 {
            Ok(GeoHash { value })
        } else {
            Err(ValidationError::InvalidGeoHashLength)
        }
    }

    /// The validated code.
    pub fn value(&self) -> (r: &str)
        ensures
            r@ == self.spec_value(),
    {
        self.value.as_str()
    }
}

/// How many days pass between self-update checks; zero disables updating.
pub struct UpdateIntervalDays {
    value: i32,
}

impl UpdateIntervalDays {
    /// A constructed interval is never negative.
    #[verifier::type_invariant]
    spec fn inv(&self) -> bool {
        self.value >= 0
    }

    /// The validated interval.
    pub closed spec fn spec_value(&self) -> int {
        self.value as int
    }

    /// Validates an interval: accepted exactly when it is not negative.
    pub fn new(value: i32) -> (r: Result<UpdateIntervalDays, ValidationError>)
        ensures
            r is Ok <==> value >= 0,
            r is Ok ==> r->Ok_0.spec_value() == value as int,
    {
        if value >= 0 {
            Ok(UpdateIntervalDays { value })
        } else {
            Err(ValidationError::NegativeInterval)
        }
    }

    /// The validated interval in days.
    pub fn into_inner(&self) -> (r: i32)
        ensures
            r as int == self.spec_value(),
            r >= 0,
    {
        proof {
            use_type_invariant(&*self);
        }
        self.value
    }
}

/// The display colours of the dashboard.
pub struct Colours {
    pub background_colour: Colour,
    pub text_colour: Colour,
    pub x_axis_colour: Colour,
    pub y_left_axis_colour: Colour,
    pub y_right_axis_colour: Colour,
    pub actual_temp_colour: Colour,
    pub feels_like_colour: Colour,
    pub rain_colour: Colour,
}

/// How the dashboard formats and selects the values it shows.
pub struct RenderOptions {
    pub temp_unit: TemperatureUnit,
    pub wind_speed_unit: WindSpeedUnit,
    /// A strftime-style pattern for the current date line.
    pub date_format: String,
    /// A strftime-style pattern for the current time line.
    pub time_format: String,
    pub use_moon_phase_instead_of_clear_night: bool,
    pub x_axis_always_at_min: bool,
    pub use_gust_instead_of_wind: bool,
}

/// Flags that disable parts of the output pipeline while debugging.
pub struct Debugging {
    pub disable_weather_api_requests: bool,
    pub disable_png_output: bool,
    pub disable_raw_7color_output: bool,
    pub allow_pre_release_version: bool,
    pub enable_debug_logs: bool,
}

} // verus!
