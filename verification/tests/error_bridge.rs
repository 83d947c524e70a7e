//! The error bridge, the host-call constructors and the log policy.

use trnsys_core::error::{InputError, TrnSysError, TrnSysErrorHandler};
use trnsys_core::host::{
    found_bad_input, found_bad_parameter, log_message, set_output_value, HostCall, Severity,
};
use trnsys_core::iteration_mode::IterationMode;
use trnsys_core::logging::{log_in_trnsys, LogLevel};

#[test]
fn bad_input_is_reported_fatal_one_based() {
    let failure = TrnSysError::InputError(InputError::BadInput {
        index: 2,
        message: "out of range".to_string(),
    });
    let report = failure.handle_in_trnsys().expect("an input failure must be reported");
    assert_eq!(
        report,
        HostCall::FoundBadInput {
            index: 3,
            severity: Severity::Fatal,
            message: "out of range".to_string(),
        }
    );
}

#[test]
fn bad_parameter_is_reported_fatal_one_based() {
    let failure = InputError::BadParameter {
        index: 0,
        message: "must be positive".to_string(),
    };
    let report = failure.handle_in_trnsys().expect("a parameter failure must be reported");
    assert_eq!(
        report,
        HostCall::FoundBadParameter {
            index: 1,
            severity: Severity::Fatal,
            message: "must be positive".to_string(),
        }
    );
}

#[test]
fn general_error_is_logged_only() {
    let failure = TrnSysError::GeneralError("something went wrong".to_string());
    assert_eq!(failure.handle_in_trnsys(), None);
}

#[test]
fn conversion_error_is_logged_only() {
    let failure = TrnSysError::ConversionError {
        param: "TrnSysValue".to_string(),
        message: "Cannot convert NaN to i32".to_string(),
    };
    assert_eq!(failure.handle_in_trnsys(), None);
}

#[test]
fn host_index_conversions_are_one_based() {
    let call = found_bad_input(0, Severity::Warning, "w".to_string());
    assert_eq!(
        call,
        HostCall::FoundBadInput { index: 1, severity: Severity::Warning, message: "w".to_string() }
    );
    let call = found_bad_parameter(4, Severity::Stop, "s".to_string());
    assert_eq!(
        call,
        HostCall::FoundBadParameter { index: 5, severity: Severity::Stop, message: "s".to_string() }
    );
    let call = set_output_value(0, 6.0f64.to_bits());
    assert_eq!(call, HostCall::SetOutputValue { index: 1, bits: 6.0f64.to_bits() });
}

#[test]
fn severity_keywords_cross_the_boundary() {
    assert_eq!(Severity::Notice.text(), "notice");
    assert_eq!(Severity::Warning.text(), "Warning");
    assert_eq!(Severity::Fatal.text(), "FATAL");
    assert_eq!(Severity::Stop.text(), "STOP");
}

#[test]
fn small_positive_codes_move_past_the_reserved_range() {
    let expectations = [(999, 1999), (500, 1500), (1, 1001), (0, 0), (-1, -1), (1000, 1000), (2345, 2345)];
    for (given, sent) in expectations {
        let call = log_message(Severity::Notice, given, "m".to_string(), 7, 42);
        assert_eq!(
            call,
            HostCall::LogMessage {
                error_code: sent,
                severity: Severity::Notice,
                unit: 7,
                type_number: 42,
                message: "m".to_string(),
            },
            "for code {}",
            given
        );
    }
}

#[test]
fn log_levels_map_onto_severities() {
    let cases = [
        (LogLevel::Error, Severity::Fatal),
        (LogLevel::Warn, Severity::Warning),
        (LogLevel::Info, Severity::Notice),
        (LogLevel::Debug, Severity::Notice),
        (LogLevel::Trace, Severity::Notice),
    ];
    for (level, severity) in cases {
        let call = log_in_trnsys(level, Some(2000), "event".to_string(), 1, 256);
        assert_eq!(
            call,
            HostCall::LogMessage {
                error_code: 2000,
                severity,
                unit: 1,
                type_number: 256,
                message: "event".to_string(),
            }
        );
    }
}

#[test]
fn missing_error_code_becomes_the_catch_all() {
    let call = log_in_trnsys(LogLevel::Error, None, "boom".to_string(), 3, 9);
    assert_eq!(
        call,
        HostCall::LogMessage {
            error_code: -1,
            severity: Severity::Fatal,
            unit: 3,
            type_number: 9,
            message: "boom".to_string(),
        }
    );
}

#[test]
fn iteration_modes_carry_their_host_codes() {
    assert_eq!(IterationMode::StaticMode.host_code(), 0);
    assert_eq!(IterationMode::DynamicMode.host_code(), 1);
    assert_eq!(IterationMode::AfterConvergenceAndPrinters.host_code(), 2);
    assert_eq!(IterationMode::AfterConvergence.host_code(), 3);
    assert_eq!(IterationMode::IntegrationMode.host_code(), 4);
    assert_eq!(IterationMode::PrinterMode.host_code(), 5);
    assert_eq!(IterationMode::default(), IterationMode::DynamicMode);
}
