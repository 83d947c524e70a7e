//! Failure taxonomy and the bridge onto host diagnostics.
//!
//! A phase handler returns a typed failure.  Structured validation failures
//! (`InputError`) are forwarded to the host's diagnostic-reporting routine
//! with severity fatal and the index moved from the component's 0-based
//! numbering to the host's 1-based numbering; every other kind is logged
//! only and produces no host diagnostic.

use vstd::prelude::*;

use crate::host::{found_bad_input, found_bad_parameter, HostCall, Severity};

verus! {

/// A validation failure tied to a specific 0-based input or parameter index.
#[derive(Debug, Clone, PartialEq, Eq)]
pub enum InputError {
    /// An input value was rejected.
    BadInput { index: i32, message: String },
    /// A parameter value was rejected.
    BadParameter { index: i32, message: String },
}

/// Any failure a phase handler can produce.
#[derive(Debug, Clone, PartialEq, Eq)]
pub enum TrnSysError {
    /// An unstructured failure; logged, never forwarded as a host diagnostic.
    GeneralError(String),
    /// A structured validation failure; forwarded to the host.
    InputError(InputError),
    /// A fallible narrowing conversion of a value primitive failed;
    /// logged, never forwarded as a host diagnostic.
    ConversionError { param: String, message: String },
}

impl InputError {
    /// The 0-based index the failure points at.
    pub open spec fn report_index(self) -> i32 {
        match self {
            InputError::BadInput { index, .. } => index,
            InputError::BadParameter { index, .. } => index,
        }
    }

    /// The text the failure carries.
    pub open spec fn report_message(self) -> String {
        match self {
            InputError::BadInput { message, .. } => message,
            InputError::BadParameter { message, .. } => message,
        }
    }
}

/// A failure that knows which host diagnostic, if any, it must become.
pub trait TrnSysErrorHandler: Sized {
    /// Whether the failure can cross the host boundary
    /// (the 1-based index must still fit the host's integer width).
    spec fn report_wf(&self) -> bool;

    /// The host diagnostic this failure is forwarded as, if any.
    spec fn host_report(&self) -> Option<HostCall>;

    /// Returns the diagnostic request to hand to the host, or `None` for a
    /// failure that is logged only.
    fn handle_in_trnsys(&self) -> (call: Option<HostCall>)
        requires
            self.report_wf(),
        ensures
            call == self.host_report(),
    ;
}

impl TrnSysErrorHandler for InputError {
    open spec fn report_wf(&self) -> bool {
        self.report_index() < i32::MAX
    }

    /// Both variants become a fatal diagnostic at the 1-based index.
    open spec fn host_report(&self) -> Option<HostCall> {
        match *self {
            InputError::BadInput { index, message } => Some(
                HostCall::FoundBadInput {
                    index: (index + 1) as i32,
                    severity: Severity::Fatal,
                    message,
                },
            ),
            InputError::BadParameter { index, message } => Some(
                HostCall::FoundBadParameter {
                    index: (index + 1) as i32,
                    severity: Severity::Fatal,
                    message,
                },
            ),
        }
    }

    fn handle_in_trnsys(&self) -> (call: Option<HostCall>) {
        match self {
            InputError::BadInput { index, message } => Some(
                found_bad_input(*index, Severity::Fatal, message.clone()),
            ),
            InputError::BadParameter { index, message } => Some(
                found_bad_parameter(*index, Severity::Fatal, message.clone()),
            ),
        }
    }
}

impl TrnSysErrorHandler for TrnSysError {
    open spec fn report_wf(&self) -> bool {
        match *self {
            TrnSysError::InputError(e) => e.report_wf(),
            _ => true,
        }
    }

    /// Only structured validation failures reach the host; the rest are
    /// logged by the shell around the library and produce no diagnostic.
    open spec fn host_report(&self) -> Option<HostCall> {
        match *self {
            TrnSysError::InputError(e) => e.host_report(),
            _ => None,
        }
    }

    fn handle_in_trnsys(&self) -> (call: Option<HostCall>) {
        match self {
            TrnSysError::InputError(e) => e.handle_in_trnsys(),
            _ => None,
        }
    }
}

} // verus!
