//! Calls that the component asks the host engine to perform.
//!
//! The host exposes a table of setter and reporting routines.  The verified
//! library never invokes them itself: each phase produces a sequence of
//! [`HostCall`] values, and the unverified shell around the library carries
//! them out through the host's native interface.  Indices inside a
//! `HostCall` are already 1-based, as the host expects; the constructors in
//! this module perform that conversion from the component's 0-based indices.

use vstd::prelude::*;

verus! {

/// Severity of a diagnostic, ordered from mildest to harshest:
/// notice, warning, fatal, stop.
#[derive(Debug, Clone, Copy, PartialEq, Eq, Structural)]
pub enum Severity {
    Notice,
    Warning,
    Fatal,
    Stop,
}

impl Severity {
    /// The text under which the host's reporting routine knows this severity.
    pub open spec fn spec_text(self) -> Seq<char> {
        match self {
            Severity::Notice => "notice"@,
            Severity::Warning => "Warning"@,
            Severity::Fatal => "FATAL"@,
            Severity::Stop => "STOP"@,
        }
    }

    /// Returns the severity keyword that crosses the host boundary.
    pub fn text(self) -> (s: &'static str)
        ensures
            s@ == self.spec_text(),
    {
        match self {
            Severity::Notice => "notice",
            Severity::Warning => "Warning",
            Severity::Fatal => "FATAL",
            Severity::Stop => "STOP",
        }
    }
}

/// One request to the host engine.  All indices are 1-based.
#[derive(Debug, Clone, PartialEq, Eq)]
pub enum HostCall {
    /// Report the component's protocol version.
    SetTypeVersion { version: i32 },
    /// Declare how many parameters the component reads.
    SetNumberOfParameters { count: i32 },
    /// Declare how many inputs the component reads.
    SetNumberOfInputs { count: i32 },
    /// Declare how many derivatives the component exposes.
    SetNumberOfDerivatives { count: i32 },
    /// Declare how many outputs the component produces.
    SetNumberOfOutputs { count: i32 },
    /// Advertise the iteration-mode code.
    SetIterationMode { mode: i32 },
    /// Store one output value; `index` is the host's 1-based output slot and
    /// `bits` the raw encoding of the floating-point value.
    SetOutputValue { index: i32, bits: u64 },
    /// Report a rejected input value at a 1-based input index.
    FoundBadInput { index: i32, severity: Severity, message: String },
    /// Report a rejected parameter value at a 1-based parameter index.
    FoundBadParameter { index: i32, severity: Severity, message: String },
    /// Write one entry to the host's message log.
    LogMessage {
        error_code: i32,
        severity: Severity,
        unit: i32,
        type_number: i32,
        message: String,
    },
}

/// Builds the request that reports a bad input to the host.
///
/// `input` is the component's 0-based input index; the host wants it 1-based.
pub fn found_bad_input(input: i32, severity: Severity, message: String) -> (call: HostCall)
    requires
        input < i32::MAX,
    ensures
        call == (HostCall::FoundBadInput { index: (input + 1) as i32, severity, message }),
{
    HostCall::FoundBadInput { index: input + 1, severity, message }
}

/// Builds the request that reports a bad parameter to the host.
///
/// `param` is the component's 0-based parameter index; the host wants it 1-based.
pub fn found_bad_parameter(param: i32, severity: Severity, message: String) -> (call: HostCall)
    requires
        param < i32::MAX,
    ensures
        call == (HostCall::FoundBadParameter { index: (param + 1) as i32, severity, message }),
{
    HostCall::FoundBadParameter { index: param + 1, severity, message }
}

/// Builds the request that stores one output value.
///
/// `i` is the component's 0-based output position; the host wants it 1-based.
pub fn set_output_value(i: i32, bits: u64) -> (call: HostCall)
    requires
        i < i32::MAX,
    ensures
        call == (HostCall::SetOutputValue { index: (i + 1) as i32, bits }),
{
    HostCall::SetOutputValue { index: i + 1, bits }
}

/// The error code under which a log entry crosses the host boundary:
/// small positive codes are moved past the host's reserved range.
pub open spec fn spec_adjusted_error_code(error_code: i32) -> i32 {
    if 0 < error_code && error_code < 1000 {
        (error_code + 1000) as i32
    } else {
        error_code
    }
}

/// Builds one entry for the host's message log.
///
/// `unit` and `type_number` identify the reporting instance; the host reads
/// them alongside the text.
pub fn log_message(
    severity: Severity,
    error_code: i32,
    message: String,
    unit: i32,
    type_number: i32,
) -> (call: HostCall)
    ensures
        call == (HostCall::LogMessage {
            error_code: spec_adjusted_error_code(error_code),
            severity,
            unit,
            type_number,
            message,
        }),
{
    let adjusted: i32 = if error_code < 1000 && error_code > 0 {
        error_code + 1000
    } else {
        error_code
    };
    HostCall::LogMessage { error_code: adjusted, severity, unit, type_number, message }
}

} // verus!
