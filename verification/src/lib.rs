//! Weather dashboard core: turns two possibly incomplete forecast series — a
//! 7-point daily series and an hourly series covering the next day — into a
//! single flat rendering context for the display template, while tracking
//! every data-quality problem as a prioritized, visually stacked diagnostic
//! banner.
//!
//! Provider times are UTC; display values are local wall clock. Missing or
//! short series never abort a run: every field of the context has a
//! deterministic default, and problems surface only through the banner.

use vstd::prelude::*;

pub mod aggregate;
pub mod clock;
pub mod context;
pub mod daily;
pub mod diagnostics;
pub mod geo;
pub mod graphout;
pub mod hourly;
pub mod image7;
pub mod logging;
pub mod models;
pub mod netmsg;
pub mod numfmt;
pub mod seqfacts;
pub mod settings;
pub mod timecalc;

pub use clock::Clock;
pub use context::{update_forecast_context, Context, ContextBuilder};
pub use diagnostics::{DashboardError, DiagnosticStack};
pub use models::{DailyForecast, ForecastResult, HourlyForecast};

verus! {

} // verus!
