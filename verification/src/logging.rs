//! Structured log-line formatting.
//!
//! The library composes each log line — colour code, symbol, label and
//! message — and returns it; writing to the terminal is left to the caller.

use vstd::prelude::*;

verus! {

/// Log levels with visual indicators.
pub enum LogLevel {
    Info,
    Success,
    Warning,
    Error,
    Debug,
}

/// The ANSI colour code of a level.
pub open spec fn spec_colour_code(level: LogLevel) -> Seq<char> {
    match level {
        LogLevel::Info => "\u{1b}[36m"@,
        LogLevel::Success => "\u{1b}[32m"@,
        LogLevel::Warning => "\u{1b}[33m"@,
        LogLevel::Error => "\u{1b}[31m"@,
        LogLevel::Debug => "\u{1b}[90m"@,
    }
}

/// The symbol of a level.
pub open spec fn spec_symbol(level: LogLevel) -> Seq<char> {
    match level {
        LogLevel::Info => "\u{2139}"@,
        LogLevel::Success => "\u{2713}"@,
        LogLevel::Warning => "\u{26a0}"@,
        LogLevel::Error => "\u{2717}"@,
        LogLevel::Debug => "\u{2022}"@,
    }
}

/// The label of a level.
pub open spec fn spec_label(level: LogLevel) -> Seq<char> {
    match level {
        LogLevel::Info => "INFO"@,
        LogLevel::Success => "SUCCESS"@,
        LogLevel::Warning => "WARNING"@,
        LogLevel::Error => "ERROR"@,
        LogLevel::Debug => "DEBUG"@,
    }
}

/// One formatted log line: colour, symbol, a space, the label, the colour
/// reset, a space and the message.
pub open spec fn spec_log_line(level: LogLevel, message: Seq<char>) -> Seq<char> {
    spec_colour_code(level) + spec_symbol(level) + " "@ + spec_label(level) + "\u{1b}[0m"@ + " "@
        + message
}

impl LogLevel {
    /// The ANSI colour code for this log level.
    pub fn colour_code(&self) -> (r: &'static str)
        ensures
            r@ == spec_colour_code(*self),
    {
        match self {
            LogLevel::Info => "\u{1b}[36m",
            LogLevel::Success => "\u{1b}[32m",
            LogLevel::Warning => "\u{1b}[33m",
            LogLevel::Error => "\u{1b}[31m",
            LogLevel::Debug => "\u{1b}[90m",
        }
    }

    /// The symbol for this log level.
    pub fn symbol(&self) -> (r: &'static str)
        ensures
            r@ == spec_symbol(*self),
    {
        match self {
            LogLevel::Info => "\u{2139}",
            LogLevel::Success => "\u{2713}",
            LogLevel::Warning => "\u{26a0}",
            LogLevel::Error => "\u{2717}",
            LogLevel::Debug => "\u{2022}",
        }
    }

    /// The label for this log level.
    pub fn label(&self) -> (r: &'static str)
        ensures
            r@ == spec_label(*self),
    {
        match self {
            LogLevel::Info => "INFO",
            LogLevel::Success => "SUCCESS",
            LogLevel::Warning => "WARNING",
            LogLevel::Error => "ERROR",
            LogLevel::Debug => "DEBUG",
        }
    }
}

/// Formats a message at the given level.
fn log_message(level: LogLevel, message: &str) -> (r: String)
    ensures
        r@ == spec_log_line(level, message@),
{
    let mut s = level.colour_code().to_owned();
    s.append(level.symbol());
    s.append(" ");
    s.append(level.label());
    s.append("\u{1b}[0m");
    s.append(" ");
    s.append(message);
    proof {
        assert(s@ =~= spec_log_line(level, message@));
    }
    s
}

/// The formatted line of an informational message.
pub fn info(message: &str) -> (r: String)
    ensures
        r@ == spec_log_line(LogLevel::Info, message@),
{
    log_message(LogLevel::Info, message)
}

/// The formatted line of a success message.
pub fn success(message: &str) -> (r: String)
    ensures
        r@ == spec_log_line(LogLevel::Success, message@),
{
    log_message(LogLevel::Success, message)
}

/// The formatted line of a warning message.
pub fn warning(message: &str) -> (r: String)
    ensures
        r@ == spec_log_line(LogLevel::Warning, message@),
{
    log_message(LogLevel::Warning, message)
}

/// The formatted line of an error message.
pub fn error(message: &str) -> (r: String)
    ensures
        r@ == spec_log_line(LogLevel::Error, message@),
{
    log_message(LogLevel::Error, message)
}

/// The formatted line of a debug message, emitted exactly when debug
/// logging is configured on.
pub fn debug(message: &str, enabled: bool) -> (r: Option<String>)
    ensures
        r is Some <==> enabled,
        r matches Some(s) ==> s@ == spec_log_line(LogLevel::Debug, message@),
{
    if enabled {
        Some(log_message(LogLevel::Debug, message))
    } else {
        None
    }
}

} // verus!
