//! The dispatcher end to end: phase priority, each phase's actions, and
//! the routing of failures.

use trnsys_core::dispatch::{
    dispatch_call, entrance, finish_iterate, resolve_phase, CallOutcome, HostFrame, Phase,
    PhaseFlags,
};
use trnsys_core::error::{InputError, TrnSysError};
use trnsys_core::history::{MemoryStorageProvider, StoreProvider};
use trnsys_core::host::{HostCall, Severity};
use trnsys_core::registry::StateRegistry;
use trnsys_core::state::TrnSysState;
use trnsys_core::trnsys_type::TrnSysType;

fn no_flags() -> PhaseFlags {
    PhaseFlags {
        version_signing: false,
        first_call: false,
        last_call: false,
        end_of_timestep: false,
        start_time: false,
        reread_parameters: false,
    }
}

fn empty_frame() -> HostFrame {
    HostFrame {
        num_inputs: 0,
        num_params: 0,
        num_outputs: 0,
        num_derivatives: 0,
        params: vec![],
        labels: vec![],
        inputs: vec![],
        outputs: vec![],
    }
}

/// A frame for an instance set up with one parameter, one input and one
/// output.
fn solve_frame(param: f64, input: f64) -> HostFrame {
    HostFrame {
        num_inputs: 1,
        num_params: 1,
        num_outputs: 1,
        num_derivatives: 0,
        params: vec![param.to_bits()],
        labels: vec![],
        inputs: vec![input.to_bits()],
        outputs: vec![0.0f64.to_bits()],
    }
}

fn set_up(registry: &mut StateRegistry<f64, f64>, unit: i32) {
    let flags = PhaseFlags { first_call: true, ..no_flags() };
    let (actions, outcome) = entrance(registry, unit, &flags, &empty_frame());
    assert_eq!(outcome, CallOutcome::Completed);
    assert_eq!(
        actions,
        vec![
            HostCall::SetNumberOfParameters { count: 1 },
            HostCall::SetNumberOfInputs { count: 1 },
            HostCall::SetNumberOfDerivatives { count: 0 },
            HostCall::SetNumberOfOutputs { count: 1 },
            HostCall::SetIterationMode { mode: 1 },
        ]
    );
}

#[test]
fn phases_resolve_in_strict_priority_order() {
    let all = PhaseFlags {
        version_signing: true,
        first_call: true,
        last_call: true,
        end_of_timestep: true,
        start_time: true,
        reread_parameters: true,
    };
    assert_eq!(resolve_phase(&all), Phase::VersionSigning);
    assert_eq!(
        resolve_phase(&PhaseFlags { version_signing: false, ..all }),
        Phase::FirstCall
    );
    assert_eq!(
        resolve_phase(&PhaseFlags { version_signing: false, first_call: false, ..all }),
        Phase::LastCall
    );
    assert_eq!(
        resolve_phase(&PhaseFlags {
            version_signing: false,
            first_call: false,
            last_call: false,
            ..all
        }),
        Phase::EndOfTimestep
    );
    assert_eq!(
        resolve_phase(&PhaseFlags {
            version_signing: false,
            first_call: false,
            last_call: false,
            end_of_timestep: false,
            ..all
        }),
        Phase::StartTime
    );
    assert_eq!(resolve_phase(&no_flags()), Phase::Iterate);
    assert_eq!(
        resolve_phase(&PhaseFlags { reread_parameters: true, ..no_flags() }),
        Phase::Iterate
    );
}

#[test]
fn version_signing_reports_the_protocol_version() {
    let mut registry: StateRegistry<f64, f64> = StateRegistry::new();
    let flags = PhaseFlags { version_signing: true, ..no_flags() };
    let (actions, outcome) = entrance(&mut registry, 1, &flags, &empty_frame());
    assert_eq!(outcome, CallOutcome::Completed);
    assert_eq!(actions, vec![HostCall::SetTypeVersion { version: 18 }]);
}

#[test]
fn first_call_declares_counts_and_mode() {
    let mut registry: StateRegistry<f64, f64> = StateRegistry::new();
    set_up(&mut registry, 3);
    let slot = registry.get_or_create(3);
    let state = registry.state_of(slot);
    assert_eq!(state.num_params, 1);
    assert_eq!(state.num_inputs, 1);
    assert_eq!(state.num_derivatives, 0);
    assert_eq!(state.num_outputs, 1);
}

#[test]
fn solve_scales_the_input_by_the_parameter() {
    let mut registry: StateRegistry<f64, f64> = StateRegistry::new();
    set_up(&mut registry, 9);
    let (actions, outcome) = entrance(&mut registry, 9, &no_flags(), &solve_frame(3.0, 2.0));
    assert_eq!(actions, vec![]);
    let (input_bits, factor) = match outcome {
        CallOutcome::ComputeProduct { input_bits, factor } => (input_bits, factor),
        other => panic!("expected a scaling request, got {:?}", other),
    };
    assert_eq!(input_bits, 2.0f64.to_bits());
    assert_eq!(factor, 3);
    let product = f64::from_bits(input_bits) * factor as f64;
    let calls = finish_iterate(product.to_bits());
    assert_eq!(
        calls,
        vec![HostCall::SetOutputValue { index: 1, bits: 6.0f64.to_bits() }]
    );
}

#[test]
fn reread_parameters_still_iterates() {
    let mut registry: StateRegistry<f64, f64> = StateRegistry::new();
    set_up(&mut registry, 2);
    let flags = PhaseFlags { reread_parameters: true, ..no_flags() };
    let (_, outcome) = entrance(&mut registry, 2, &flags, &solve_frame(4.0, 1.5));
    assert_eq!(
        outcome,
        CallOutcome::ComputeProduct { input_bits: 1.5f64.to_bits(), factor: 4 }
    );
}

#[test]
fn start_time_rejects_a_zero_parameter_and_pushes_nothing() {
    let mut registry: StateRegistry<f64, f64> = StateRegistry::new();
    set_up(&mut registry, 4);
    let flags = PhaseFlags { start_time: true, ..no_flags() };
    let (actions, outcome) = entrance(&mut registry, 4, &flags, &solve_frame(0.0, 0.0));
    assert_eq!(
        actions,
        vec![HostCall::FoundBadParameter {
            index: 1,
            severity: Severity::Fatal,
            message: "Parameter 1 must be greater than 0".to_string(),
        }]
    );
    for action in &actions {
        assert!(!matches!(action, HostCall::SetOutputValue { .. }));
    }
    match outcome {
        CallOutcome::Failed(TrnSysError::InputError(InputError::BadParameter {
            index, ..
        })) => assert_eq!(index, 0),
        other => panic!("expected a failed call, got {:?}", other),
    }
}

#[test]
fn start_time_rejects_a_fractional_parameter() {
    let mut registry: StateRegistry<f64, f64> = StateRegistry::new();
    set_up(&mut registry, 12);
    let flags = PhaseFlags { start_time: true, ..no_flags() };
    let (actions, outcome) = entrance(&mut registry, 12, &flags, &solve_frame(1.5, 0.0));
    assert_eq!(
        actions,
        vec![HostCall::FoundBadParameter {
            index: 1,
            severity: Severity::Fatal,
            message: "Cannot convert float to i32".to_string(),
        }]
    );
    assert!(matches!(outcome, CallOutcome::Failed(_)));
}

#[test]
fn start_time_pushes_one_zero_default_output() {
    let mut registry: StateRegistry<f64, f64> = StateRegistry::new();
    set_up(&mut registry, 5);
    let flags = PhaseFlags { start_time: true, ..no_flags() };
    let (actions, outcome) = entrance(&mut registry, 5, &flags, &solve_frame(3.0, 0.0));
    assert_eq!(outcome, CallOutcome::Completed);
    assert_eq!(
        actions,
        vec![HostCall::SetOutputValue { index: 1, bits: 0.0f64.to_bits() }]
    );
}

#[test]
fn a_mismatched_frame_fails_loudly() {
    let mut registry: StateRegistry<f64, f64> = StateRegistry::new();
    set_up(&mut registry, 6);
    let (actions, outcome) = entrance(&mut registry, 6, &no_flags(), &empty_frame());
    assert_eq!(actions, vec![]);
    match outcome {
        CallOutcome::Failed(TrnSysError::GeneralError(message)) => {
            assert_eq!(message, "Buffer lengths do not match the declared counts");
        }
        other => panic!("expected a failed call, got {:?}", other),
    }
}

#[test]
fn a_nan_parameter_fails_the_solve_without_a_diagnostic() {
    let mut registry: StateRegistry<f64, f64> = StateRegistry::new();
    set_up(&mut registry, 8);
    let (actions, outcome) = entrance(&mut registry, 8, &no_flags(), &solve_frame(f64::NAN, 1.0));
    assert_eq!(actions, vec![]);
    match outcome {
        CallOutcome::Failed(TrnSysError::ConversionError { message, .. }) => {
            assert_eq!(message, "Cannot convert NaN to i32");
        }
        other => panic!("expected a conversion failure, got {:?}", other),
    }
}

#[test]
fn last_call_completes_with_no_actions() {
    let mut registry: StateRegistry<f64, f64> = StateRegistry::new();
    set_up(&mut registry, 10);
    let flags = PhaseFlags { last_call: true, ..no_flags() };
    let (actions, outcome) = entrance(&mut registry, 10, &flags, &solve_frame(3.0, 1.0));
    assert_eq!(actions, vec![]);
    assert_eq!(outcome, CallOutcome::Completed);
}

#[test]
fn end_of_timestep_advances_both_stores() {
    let mut state: TrnSysState<f64, f64> = TrnSysState::new();
    let mut dynamic = MemoryStorageProvider::new();
    dynamic.set_dyn(Some(1.0));
    state.dynamic_store = Some(dynamic);
    state.static_store = Some(MemoryStorageProvider::new());
    let component = TrnSysType::new();
    let flags = PhaseFlags { end_of_timestep: true, ..no_flags() };
    let result = dispatch_call(&mut state, &component, &flags, &empty_frame());
    assert!(result.is_ok());
    let dynamic = state.dynamic_store.as_ref().unwrap();
    assert_eq!(dynamic.get_history().as_slice(), &[Some(1.0), None]);
    assert!(dynamic.get().is_none());
    let fixed = state.static_store.as_ref().unwrap();
    assert_eq!(fixed.get_history().len(), 2);
}

#[test]
fn end_of_timestep_leaves_absent_stores_absent() {
    let mut registry: StateRegistry<f64, f64> = StateRegistry::new();
    set_up(&mut registry, 13);
    let flags = PhaseFlags { end_of_timestep: true, ..no_flags() };
    let (actions, outcome) = entrance(&mut registry, 13, &flags, &solve_frame(3.0, 1.0));
    assert_eq!(actions, vec![]);
    assert_eq!(outcome, CallOutcome::Completed);
    let slot = registry.get_or_create(13);
    assert!(registry.state_of(slot).dynamic_store.is_none());
    assert!(registry.state_of(slot).static_store.is_none());
}

#[test]
fn buffers_are_rebuilt_wholly_each_call() {
    let mut registry: StateRegistry<f64, f64> = StateRegistry::new();
    set_up(&mut registry, 14);
    let _ = entrance(&mut registry, 14, &no_flags(), &solve_frame(3.0, 2.0));
    let _ = entrance(&mut registry, 14, &no_flags(), &solve_frame(7.0, 9.5));
    let slot = registry.get_or_create(14);
    let state = registry.state_of(slot);
    assert_eq!(state.params.len(), 1);
    assert_eq!(state.params[0].bits, 7.0f64.to_bits());
    assert_eq!(state.inputs.len(), 1);
    assert_eq!(state.inputs[0].bits, 9.5f64.to_bits());
}
