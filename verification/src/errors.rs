//! The two-tier error taxonomy.
//!
//! `Config` errors arise while the caller's input is validated, strictly
//! before any wait is attempted; `Runtime` errors arise during or after an
//! attempted wait. The two tiers are never conflated: every fallible
//! operation of this library says in its contract exactly which variant it
//! returns and on which inputs.

use vstd::prelude::*;

verus! {

/// Declares `chrono::ParseError`, the opaque failure of chrono's date/time
/// string parsing, so that the conversion from it can be stated.
#[verifier::external_type_specification]
#[verifier::external_body]
pub struct ExChronoParseError(chrono::ParseError);

/// Declares `tokio_walltime::Error`, the failure type of the wall-clock
/// sleep backend, so that it can be carried and rendered.
#[verifier::external_type_specification]
#[verifier::external_body]
pub struct ExWalltimeError(tokio_walltime::Error);

/// Relies on `tokio_walltime::Error`'s `Display` implementation (via
/// `ToString::to_string`): a `thiserror`-derived, transparent delegation to
/// the wrapped cause. The text depends on the platform's libc and on the
/// process locale (the `Errno` variant formats through `strerror_r`), so
/// nothing is promised of it: callers capture it once, own the `String`, and
/// every further contract speaks of the owned value.
#[verifier::external_body]
pub(crate) fn walltime_error_string(e: &tokio_walltime::Error) -> String {
    e.to_string()
}

/// A configuration-time failure: the caller's input is wrong. Every variant
/// is terminal — once one is constructed, no wait may be attempted.
#[derive(Debug, Clone)]
pub enum ConfigErrorKind {
    /// Latitude/longitude out of range or malformed; the payload is a fixed
    /// descriptive reason.
    InvalidCoordinates(&'static str),
    /// Structural parse failure of the TOML config source.
    InvalidTomlFile,
    /// A date or timezone string failed to parse.
    ParseDate,
    /// An altitude string was not a number within [-90.0, 90.0].
    ParseAltitude,
    /// An offset string was not in HH:MM:SS or HH:MM form.
    ParseOffset,
    /// The requested event name is not recognized.
    InvalidEvent,
}

/// A failure discovered during or after an attempted wait (possibly a wait of
/// zero duration).
#[derive(Debug)]
pub enum RuntimeErrorKind {
    /// The resolved event does not occur for the given date and location.
    NonOccurringEvent,
    /// The target instant was strictly before "now" at schedule time; a
    /// negative wait is disallowed.
    PastEvent,
    /// The process woke, but the measured drift from the target exceeded the
    /// tolerance; the payload is the actual signed drift in seconds, never an
    /// estimate.
    EventMissed(i64),
    /// The sleep primitive itself failed; carries the message the backend's
    /// opaque cause displayed, captured once when the failure was observed.
    SleepError(String),
}

/// The caller-visible error: one of the two tiers.
#[derive(Debug)]
pub enum HeliocronError {
    Config(ConfigErrorKind),
    Runtime(RuntimeErrorKind),
}

/// The fixed description of each configuration failure.
pub open spec fn config_message(k: ConfigErrorKind) -> Seq<char> {
    match k {
        ConfigErrorKind::InvalidCoordinates(msg) => msg@,
        ConfigErrorKind::InvalidTomlFile => "Error parsing TOML file. Ensure that it is of the correct format."@,
        ConfigErrorKind::ParseDate => "Error parsing date. Ensure the date and timezone formats are correct."@,
        ConfigErrorKind::ParseAltitude => "Error parsing altitude. Must be a number which is <= 90.0 and >= -90.0."@,
        ConfigErrorKind::ParseOffset => "Error parsing offset. Expected a string in the format HH:MM:SS or HH:MM."@,
        ConfigErrorKind::InvalidEvent => "Error parsing event."@,
    }
}

impl ConfigErrorKind {
    /// The fixed description of this failure, exactly as `config_message`
    /// states it.
    pub fn as_str(&self) -> (r: &str)
        ensures
            r@ == config_message(*self),
    {
        match *self {
            ConfigErrorKind::InvalidCoordinates(msg) => msg,
            ConfigErrorKind::InvalidTomlFile => {
                "Error parsing TOML file. Ensure that it is of the correct format."
            },
            ConfigErrorKind::ParseDate => {
                "Error parsing date. Ensure the date and timezone formats are correct."
            },
            ConfigErrorKind::ParseAltitude => {
                "Error parsing altitude. Must be a number which is <= 90.0 and >= -90.0."
            },
            ConfigErrorKind::ParseOffset => {
                "Error parsing offset. Expected a string in the format HH:MM:SS or HH:MM."
            },
            ConfigErrorKind::InvalidEvent => "Error parsing event.",
        }
    }
}

impl From<chrono::ParseError> for HeliocronError {
    /// A date/time string that chrono refuses is a configuration failure.
    fn from(_err: chrono::ParseError) -> (r: Self) {
        HeliocronError::Config(ConfigErrorKind::ParseDate)
    }
}

impl vstd::std_specs::convert::FromSpecImpl<chrono::ParseError> for HeliocronError {
    open spec fn obeys_from_spec() -> bool {
        true
    }

    open spec fn from_spec(t: chrono::ParseError) -> Self {
        HeliocronError::Config(ConfigErrorKind::ParseDate)
    }
}

impl From<tokio_walltime::Error> for HeliocronError {
    /// A backend sleep failure is a runtime failure wrapping the cause: the
    /// result is always `Runtime(SleepError(..))`, its payload the cause's
    /// message, captured here, once, at the boundary.
    fn from(err: tokio_walltime::Error) -> (r: Self)
        ensures
            r matches HeliocronError::Runtime(RuntimeErrorKind::SleepError(_)),
    {
        HeliocronError::Runtime(RuntimeErrorKind::SleepError(walltime_error_string(&err)))
    }
}

impl vstd::std_specs::convert::FromSpecImpl<tokio_walltime::Error> for HeliocronError {
    /// The captured message is no mathematical function of the error value
    /// (it depends on libc and locale), so no spec function can give the
    /// whole result; the variant — always `Runtime(SleepError(..))` — is
    /// promised by the `ensures` on `from` itself.
    open spec fn obeys_from_spec() -> bool {
        false
    }

    open spec fn from_spec(t: tokio_walltime::Error) -> Self {
        arbitrary()
    }
}

} // verus!
