//! The bridge from log events onto the host's message log.
//!
//! The process-wide log subsystem itself (files, subscribers, formats)
//! lives outside the library; what is verified here is the policy: which
//! severity a log level maps to, and how an event becomes an entry of
//! the host's message log.

use vstd::prelude::*;

use crate::host::{log_message, spec_adjusted_error_code, HostCall, Severity};

verus! {

/// The level of a log event, from most to least severe.
#[derive(Debug, Clone, Copy, PartialEq, Eq, Structural)]
pub enum LogLevel {
    /// The event is an error.
    Error,
    /// The event is a warning.
    Warn,
    /// The event is informational.
    Info,
    /// The event is for debugging.
    Debug,
    /// The event is the finest-grained tracing.
    Trace,
}

/// The severity under which each level reaches the host: errors are
/// fatal, warnings are warnings, everything quieter is a notice.
pub open spec fn severity_for_level(level: LogLevel) -> Severity {
    match level {
        LogLevel::Error => Severity::Fatal,
        LogLevel::Warn => Severity::Warning,
        _ => Severity::Notice,
    }
}

/// Turns one log event into the host's message-log entry: the level
/// decides the severity, a missing error code becomes the host's
/// catch-all code, and small positive codes are moved past the host's
/// reserved range.
pub fn log_in_trnsys(
    level: LogLevel,
    error_code: Option<i32>,
    message: String,
    unit: i32,
    type_number: i32,
) -> (call: HostCall)
    ensures
        call == (HostCall::LogMessage {
            error_code: spec_adjusted_error_code(
                match error_code {
                    Some(code) => code,
                    None => -1i32,
                },
            ),
            severity: severity_for_level(level),
            unit,
            type_number,
            message,
        }),
{
    let severity = match level {
        LogLevel::Error => Severity::Fatal,
        LogLevel::Warn => Severity::Warning,
        _ => Severity::Notice,
    };
    let code: i32 = match error_code {
        Some(code) => code,
        None => -1,
    };
    log_message(severity, code, message, unit, type_number)
}

} // verus!
