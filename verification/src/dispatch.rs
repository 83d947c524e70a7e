//! The call-phase dispatcher: one host invocation, one phase.
//!
//! The host remembers nothing between calls; it exposes query flags and
//! value getters instead.  The unverified shell reads those once per
//! call into a [`PhaseFlags`] and a [`HostFrame`], hands them to
//! [`entrance`], carries out the [`HostCall`]s that come back, and — when
//! the outcome asks for it — computes the floating-point product the
//! solve needs and finishes the call with [`finish_iterate`].
//!
//! Exactly one phase runs per invocation, picked in strict priority
//! order: version signing, first call, last call, end of timestep, start
//! time, and otherwise the iteration itself.  A handler failure
//! short-circuits the rest of its phase: no output is pushed for that
//! call, and the failure is routed through the error bridge instead.

use vstd::prelude::*;

use crate::error::{TrnSysError, TrnSysErrorHandler};
use crate::history::{MemoryStorageProvider, StoreProvider};
use crate::host::{set_output_value, HostCall};
use crate::registry::StateRegistry;
use crate::state::TrnSysState;
use crate::trnsys_type::{first_parameter_valid, TrnSysType};
use crate::value::{
    integer_value, is_fraction_conversion_error, is_integral, is_nan, is_nan_conversion_error,
    saturate_i32, TrnSysValue,
};

verus! {

/// The host's query flags for one call, read once at the start of it.
#[derive(Debug, Clone, Copy, PartialEq, Eq, Structural)]
pub struct PhaseFlags {
    /// The host is collecting protocol versions.
    pub version_signing: bool,
    /// The very first call of the simulation.
    pub first_call: bool,
    /// The last call before the simulation shuts down.
    pub last_call: bool,
    /// The call that closes a timestep; signalled once per timestep
    /// whether or not the step converged.
    pub end_of_timestep: bool,
    /// The call at simulation start time.
    pub start_time: bool,
    /// The parameters must be read again before iterating.
    pub reread_parameters: bool,
}

/// The phase a call resolves to; exactly one per invocation.
#[derive(Debug, Clone, Copy, PartialEq, Eq, Structural)]
pub enum Phase {
    /// Report the protocol version and do nothing else.
    VersionSigning,
    /// Declare counts and iteration mode.
    FirstCall,
    /// Tear down; no further phase runs for this instance.
    LastCall,
    /// Close the current timestep and advance the stores.
    EndOfTimestep,
    /// Validate parameters and push the default outputs.
    StartTime,
    /// The ordinary solve.
    Iterate,
}

/// The strict priority order in which the flags decide the phase.
pub open spec fn spec_resolve_phase(flags: PhaseFlags) -> Phase {
    if flags.version_signing {
        Phase::VersionSigning
    } else if flags.first_call {
        Phase::FirstCall
    } else if flags.last_call {
        Phase::LastCall
    } else if flags.end_of_timestep {
        Phase::EndOfTimestep
    } else if flags.start_time {
        Phase::StartTime
    } else {
        Phase::Iterate
    }
}

/// Resolves the flags to the single phase of this call, in strict
/// priority order.
pub fn resolve_phase(flags: &PhaseFlags) -> (phase: Phase)
    ensures
        phase == spec_resolve_phase(*flags),
{
    if flags.version_signing {
        Phase::VersionSigning
    } else if flags.first_call {
        Phase::FirstCall
    } else if flags.last_call {
        Phase::LastCall
    } else if flags.end_of_timestep {
        Phase::EndOfTimestep
    } else if flags.start_time {
        Phase::StartTime
    } else {
        Phase::Iterate
    }
}

/// Everything the host's getters returned for this call: the declared
/// counts, and one value per 1-based slot of each buffer, in slot order.
#[derive(Debug, Clone, PartialEq, Eq)]
pub struct HostFrame {
    /// The input count the host holds for this instance.
    pub num_inputs: i32,
    /// The parameter count the host holds for this instance.
    pub num_params: i32,
    /// The output count the host holds for this instance.
    pub num_outputs: i32,
    /// The derivative count the host holds for this instance.
    pub num_derivatives: i32,
    /// Raw bits of the parameter values, slots 1 through the count.
    pub params: Vec<u64>,
    /// The label strings, slots 1 through the count.
    pub labels: Vec<String>,
    /// Raw bits of the input values, slots 1 through the count.
    pub inputs: Vec<u64>,
    /// Raw bits of the current output values, slots 1 through the count.
    pub outputs: Vec<u64>,
}

/// How one call ends, seen by the shell around the library.
#[derive(Debug, Clone, PartialEq, Eq)]
pub enum CallOutcome {
    /// The phase ran to completion; the actions say everything.
    Completed,
    /// The solve needs `input_bits` scaled by `factor`; hand the product
    /// to `finish_iterate` to obtain the output actions.
    ComputeProduct { input_bits: u64, factor: i32 },
    /// The phase failed; the actions hold the host diagnostic, if the
    /// failure warrants one, and the failure itself is here to log.
    Failed(TrnSysError),
}

/// Whether the frame's buffers are exactly as long as the counts the
/// record declares; anything else fails the call loudly.
pub open spec fn counts_match<D, S>(state: TrnSysState<D, S>, frame: HostFrame) -> bool {
    &&& frame.params@.len() == state.num_params
    &&& frame.labels@.len() == state.num_labels
    &&& frame.inputs@.len() == state.num_inputs
    &&& frame.outputs@.len() == state.num_outputs
}

/// The buffers of `post` hold exactly the frame's values.
pub open spec fn buffers_from_frame<D, S>(post: TrnSysState<D, S>, frame: HostFrame) -> bool {
    &&& post.params@.len() == frame.params@.len()
    &&& forall|i: int| 0 <= i < frame.params@.len() ==> post.params@[i].bits == frame.params@[i]
    &&& post.labels@ =~= frame.labels@
    &&& post.inputs@.len() == frame.inputs@.len()
    &&& forall|i: int| 0 <= i < frame.inputs@.len() ==> post.inputs@[i].bits == frame.inputs@[i]
    &&& post.outputs@.len() == frame.outputs@.len()
    &&& forall|i: int|
        0 <= i < frame.outputs@.len() ==> post.outputs@[i].bits == frame.outputs@[i]
}

/// Counts, version, mode and default outputs carry over untouched.
pub open spec fn core_unchanged<D, S>(pre: TrnSysState<D, S>, post: TrnSysState<D, S>) -> bool {
    &&& post.trnsys_standard_version == pre.trnsys_standard_version
    &&& post.num_params == pre.num_params
    &&& post.num_labels == pre.num_labels
    &&& post.num_inputs == pre.num_inputs
    &&& post.num_derivatives == pre.num_derivatives
    &&& post.num_outputs == pre.num_outputs
    &&& post.default_output_values == pre.default_output_values
    &&& post.iteration_mode == pre.iteration_mode
}

/// The stores carry over untouched.
pub open spec fn stores_unchanged<D, S>(pre: TrnSysState<D, S>, post: TrnSysState<D, S>) -> bool {
    &&& post.dynamic_store == pre.dynamic_store
    &&& post.static_store == pre.static_store
}

/// One store advanced by exactly one tick: a fresh unset slot appended,
/// nothing before it touched, and a store stays absent if it was absent.
pub open spec fn store_ticked<T>(
    pre: Option<MemoryStorageProvider<T>>,
    post: Option<MemoryStorageProvider<T>>,
) -> bool {
    match pre {
        None => post is None,
        Some(a) => match post {
            Some(b) => b.wf() && b.history_view() == a.history_view().push(None),
            None => false,
        },
    }
}

/// A full refresh: buffers rebuilt from the frame, the rest untouched.
pub open spec fn buffers_refreshed<D, S>(
    pre: TrnSysState<D, S>,
    post: TrnSysState<D, S>,
    frame: HostFrame,
) -> bool {
    &&& buffers_from_frame(post, frame)
    &&& core_unchanged(pre, post)
    &&& stores_unchanged(pre, post)
}

/// The failure of a call whose frame does not match the declared counts.
pub open spec fn is_count_mismatch_error(e: TrnSysError) -> bool {
    &&& e matches TrnSysError::GeneralError(m)
    &&& m@ == "Buffer lengths do not match the declared counts"@
}

/// The failure of an iterate call on an instance that declared no input
/// or no parameter.
pub open spec fn is_missing_buffer_error(e: TrnSysError) -> bool {
    &&& e matches TrnSysError::GeneralError(m)
    &&& m@ == "The iterate phase needs at least one input and one parameter"@
}

/// The actions of the first call, in the order the host sees them.
pub open spec fn setup_calls<D, S>(post: TrnSysState<D, S>) -> Seq<HostCall> {
    seq![
        HostCall::SetNumberOfParameters { count: post.num_params },
        HostCall::SetNumberOfInputs { count: post.num_inputs },
        HostCall::SetNumberOfDerivatives { count: post.num_derivatives },
        HostCall::SetNumberOfOutputs { count: post.num_outputs },
        HostCall::SetIterationMode { mode: post.iteration_mode.spec_host_code() },
    ]
}

/// The actions that push one output value per slot, 1-based and in slot
/// order, all zero: what start time sends before the first solve.
pub open spec fn default_output_calls(count: int) -> Seq<HostCall> {
    Seq::new(count as nat, |i: int| HostCall::SetOutputValue { index: (i + 1) as i32, bits: 0 })
}

/// What one dispatched call does: how the record moves from `pre` to
/// `post` and which actions and outcome come back, phase by phase.
pub open spec fn dispatch_post<D, S>(
    pre: TrnSysState<D, S>,
    post: TrnSysState<D, S>,
    flags: PhaseFlags,
    frame: HostFrame,
    r: Result<(Seq<HostCall>, CallOutcome), TrnSysError>,
) -> bool {
    match spec_resolve_phase(flags) {
        Phase::VersionSigning => {
            &&& post == pre
            &&& r matches Ok((actions, outcome))
            &&& actions =~= seq![
                HostCall::SetTypeVersion { version: pre.trnsys_standard_version },
            ]
            &&& outcome == CallOutcome::Completed
        },
        Phase::FirstCall => {
            &&& post.num_params == 1
            &&& post.num_inputs == 1
            &&& post.num_derivatives == 0
            &&& post.num_outputs == 1
            &&& post.trnsys_standard_version == pre.trnsys_standard_version
            &&& post.num_labels == pre.num_labels
            &&& post.params == pre.params
            &&& post.labels == pre.labels
            &&& post.inputs == pre.inputs
            &&& post.outputs == pre.outputs
            &&& post.default_output_values == pre.default_output_values
            &&& post.iteration_mode == pre.iteration_mode
            &&& stores_unchanged(pre, post)
            &&& r matches Ok((actions, outcome))
            &&& actions =~= setup_calls(post)
            &&& outcome == CallOutcome::Completed
        },
        Phase::LastCall => {
            if counts_match(pre, frame) {
                &&& buffers_refreshed(pre, post, frame)
                &&& r matches Ok((actions, outcome))
                &&& actions =~= Seq::<HostCall>::empty()
                &&& outcome == CallOutcome::Completed
            } else {
                &&& post == pre
                &&& r matches Err(e)
                &&& is_count_mismatch_error(e)
            }
        },
        Phase::EndOfTimestep => {
            if counts_match(pre, frame) {
                &&& buffers_from_frame(post, frame)
                &&& core_unchanged(pre, post)
                &&& store_ticked(pre.dynamic_store, post.dynamic_store)
                &&& store_ticked(pre.static_store, post.static_store)
                &&& r matches Ok((actions, outcome))
                &&& actions =~= Seq::<HostCall>::empty()
                &&& outcome == CallOutcome::Completed
            } else {
                &&& post == pre
                &&& r matches Err(e)
                &&& is_count_mismatch_error(e)
            }
        },
        Phase::StartTime => {
            if counts_match(pre, frame) {
                &&& buffers_refreshed(pre, post, frame)
                &&& if first_parameter_valid(post.params@) {
                    &&& r matches Ok((actions, outcome))
                    &&& actions =~= default_output_calls(pre.num_outputs as int)
                    &&& outcome == CallOutcome::Completed
                } else {
                    &&& r matches Err(e)
                    &&& e matches TrnSysError::InputError(inner)
                    &&& crate::trnsys_type::first_parameter_failure(post.params@, inner)
                }
            } else {
                &&& post == pre
                &&& r matches Err(e)
                &&& is_count_mismatch_error(e)
            }
        },
        Phase::Iterate => {
            if counts_match(pre, frame) {
                &&& buffers_refreshed(pre, post, frame)
                &&& if pre.num_inputs < 1 || pre.num_params < 1 {
                    &&& r matches Err(e)
                    &&& is_missing_buffer_error(e)
                } else if is_integral(frame.params@[0]) {
                    &&& r matches Ok((actions, outcome))
                    &&& actions =~= Seq::<HostCall>::empty()
                    &&& outcome == (CallOutcome::ComputeProduct {
                        input_bits: frame.inputs@[0],
                        factor: saturate_i32(integer_value(frame.params@[0])),
                    })
                } else {
                    &&& r matches Err(e)
                    &&& if is_nan(frame.params@[0]) {
                        is_nan_conversion_error(e)
                    } else {
                        is_fraction_conversion_error(e)
                    }
                }
            } else {
                &&& post == pre
                &&& r matches Err(e)
                &&& is_count_mismatch_error(e)
            }
        },
    }
}

/// Every failure a dispatched call can produce may cross the error
/// bridge: its reported index, if any, still fits the host's width.
pub open spec fn dispatch_err_reportable(
    r: Result<(Seq<HostCall>, CallOutcome), TrnSysError>,
) -> bool {
    r matches Err(e) ==> e.report_wf()
}

/// Turns a list of output values into the actions that push them to the
/// host, one per value, at 1-based slots in value order.
pub fn push_outputs(values: &Vec<TrnSysValue>) -> (calls: Vec<HostCall>)
    requires
        values@.len() <= i32::MAX,
    ensures
        calls@.len() == values@.len(),
        forall|i: int|
            0 <= i < values@.len() ==> calls@[i] == (HostCall::SetOutputValue {
                index: (i + 1) as i32,
                bits: values@[i].bits,
            }),
{
    let mut calls: Vec<HostCall> = Vec::new();
    let mut i: usize = 0;
    while i < values.len()
        invariant
            values@.len() <= i32::MAX,
            i <= values@.len(),
            calls@.len() == i,
            forall|k: int|
                0 <= k < i ==> calls@[k] == (HostCall::SetOutputValue {
                    index: (k + 1) as i32,
                    bits: values@[k].bits,
                }),
        decreases values@.len() - i,
    {
        let call = set_output_value(i as i32, values[i].bits);
        calls.push(call);
        i = i + 1;
    }
    calls
}

/// Checks the frame against the declared counts and, when they agree,
/// rebuilds all four buffers from it; a mismatch leaves the record
/// untouched and reports `false`.
fn refresh_buffers<D, S>(state: &mut TrnSysState<D, S>, frame: &HostFrame) -> (ok: bool)
    requires
        old(state).wf(),
    ensures
        final(state).wf(),
        ok == counts_match(*old(state), *frame),
        !ok ==> *final(state) == *old(state),
        ok ==> buffers_refreshed(*old(state), *final(state), *frame),
{
    let counts_ok: bool = frame.params.len() == state.num_params as usize
        && frame.labels.len() == state.num_labels as usize && frame.inputs.len()
        == state.num_inputs as usize && frame.outputs.len() == state.num_outputs as usize;
    if !counts_ok {
        return false;
    }
    state.read_input_values(&frame.inputs, &frame.outputs);
    state.read_parameter_values(&frame.params, &frame.labels);
    true
}

/// Builds the failure of a call whose frame does not match the counts.
fn count_mismatch_error() -> (e: TrnSysError)
    ensures
        is_count_mismatch_error(e),
        e.report_wf(),
{
    TrnSysError::GeneralError("Buffer lengths do not match the declared counts".to_owned())
}

/// Advances both stores of a record by one tick, leaving absent stores
/// absent and touching nothing else.
fn tick_stores<D, S>(state: &mut TrnSysState<D, S>)
    requires
        old(state).wf(),
    ensures
        final(state).wf(),
        store_ticked(old(state).dynamic_store, final(state).dynamic_store),
        store_ticked(old(state).static_store, final(state).static_store),
        core_unchanged(*old(state), *final(state)),
        final(state).params == old(state).params,
        final(state).labels == old(state).labels,
        final(state).inputs == old(state).inputs,
        final(state).outputs == old(state).outputs,
{
    let dynamic = state.dynamic_store.take();
    match dynamic {
        Some(mut store) => {
            store.tick();
            state.dynamic_store = Some(store);
        },
        None => {},
    }
    let fixed = state.static_store.take();
    match fixed {
        Some(mut store) => {
            store.tick();
            state.static_store = Some(store);
        },
        None => {},
    }
}

/// Runs the single phase of one host invocation against one record.
///
/// The phase is resolved from the flags in strict priority order; the
/// record is updated, and the actions to perform against the host come
/// back together with the outcome.  A failure never applies partial
/// output: when the result is an error, no output action is produced
/// for this call.
pub fn dispatch_call<D, S>(
    state: &mut TrnSysState<D, S>,
    type_instance: &TrnSysType,
    flags: &PhaseFlags,
    frame: &HostFrame,
) -> (r: Result<(Vec<HostCall>, CallOutcome), TrnSysError>)
    requires
        old(state).wf(),
    ensures
        final(state).wf(),
        dispatch_post(
            *old(state),
            *final(state),
            *flags,
            *frame,
            match r {
                Ok(out) => Ok((out.0@, out.1)),
                Err(e) => Err(e),
            },
        ),
        dispatch_err_reportable(
            match r {
                Ok(out) => Ok((out.0@, out.1)),
                Err(e) => Err(e),
            },
        ),
{
    let phase = resolve_phase(flags);
    match phase {
        Phase::VersionSigning => {
            let mut actions: Vec<HostCall> = Vec::new();
            actions.push(HostCall::SetTypeVersion { version: state.trnsys_standard_version });
            proof {
                assert(actions@ =~= seq![
                    HostCall::SetTypeVersion { version: old(state).trnsys_standard_version },
                ]);
            }
            Ok((actions, CallOutcome::Completed))
        },
        Phase::FirstCall => {
            state.num_inputs = frame.num_inputs;
            state.num_params = frame.num_params;
            state.num_outputs = frame.num_outputs;
            state.num_derivatives = frame.num_derivatives;
            match type_instance.first_call_of_simulation(state) {
                Ok(()) => {},
                Err(e) => {
                    return Err(e);
                },
            }
            let mut actions: Vec<HostCall> = Vec::new();
            actions.push(HostCall::SetNumberOfParameters { count: state.num_params });
            actions.push(HostCall::SetNumberOfInputs { count: state.num_inputs });
            actions.push(HostCall::SetNumberOfDerivatives { count: state.num_derivatives });
            actions.push(HostCall::SetNumberOfOutputs { count: state.num_outputs });
            actions.push(HostCall::SetIterationMode { mode: state.iteration_mode.host_code() });
            proof {
                assert(actions@ =~= setup_calls(*state));
            }
            Ok((actions, CallOutcome::Completed))
        },
        Phase::LastCall => {
            if !refresh_buffers(state, frame) {
                return Err(count_mismatch_error());
            }
            match type_instance.simulation_ends(state) {
                Ok(()) => {},
                Err(e) => {
                    return Err(e);
                },
            }
            Ok((Vec::new(), CallOutcome::Completed))
        },
        Phase::EndOfTimestep => {
            if !refresh_buffers(state, frame) {
                return Err(count_mismatch_error());
            }
            match type_instance.end_of_timestep(state) {
                Ok(()) => {},
                Err(e) => {
                    return Err(e);
                },
            }
            tick_stores(state);
            Ok((Vec::new(), CallOutcome::Completed))
        },
        Phase::StartTime => {
            if !refresh_buffers(state, frame) {
                return Err(count_mismatch_error());
            }
            match type_instance.validate_parameters(state) {
                Ok(()) => {},
                Err(e) => {
                    return Err(TrnSysError::InputError(e));
                },
            }
            let defaults = match type_instance.get_default_output_values(state) {
                Ok(v) => v,
                Err(e) => {
                    return Err(e);
                },
            };
            let actions = push_outputs(&defaults);
            match type_instance.simulation_starts(state) {
                Ok(()) => {},
                Err(e) => {
                    return Err(e);
                },
            }
            proof {
                assert(actions@ =~= default_output_calls(old(state).num_outputs as int));
            }
            Ok((actions, CallOutcome::Completed))
        },
        Phase::Iterate => {
            if !refresh_buffers(state, frame) {
                return Err(count_mismatch_error());
            }
            if flags.reread_parameters {
                state.read_parameter_values(&frame.params, &frame.labels);
                state.read_input_values(&frame.inputs, &frame.outputs);
            }
            if state.inputs.len() < 1 || state.params.len() < 1 {
                return Err(TrnSysError::GeneralError(
                    "The iterate phase needs at least one input and one parameter".to_owned(),
                ));
            }
            let request = match type_instance.iterate(state) {
                Ok(req) => req,
                Err(e) => {
                    return Err(e);
                },
            };
            Ok((
                Vec::new(),
                CallOutcome::ComputeProduct {
                    input_bits: request.input_bits,
                    factor: request.factor,
                },
            ))
        },
    }
}

/// The actions the error bridge produces for a failed call: the host
/// diagnostic if the failure warrants one, nothing otherwise.
pub open spec fn report_calls(e: TrnSysError) -> Seq<HostCall> {
    match e.host_report() {
        Some(call) => seq![call],
        None => Seq::empty(),
    }
}

/// How one full entrance behaves on the record it addressed: either the
/// dispatched phase succeeded and its actions come back unchanged, or it
/// failed and the actions are the error bridge's report.
pub open spec fn entrance_post<D, S>(
    pre: TrnSysState<D, S>,
    post: TrnSysState<D, S>,
    flags: PhaseFlags,
    frame: HostFrame,
    actions: Seq<HostCall>,
    outcome: CallOutcome,
) -> bool {
    match outcome {
        CallOutcome::Failed(e) => {
            &&& dispatch_post(pre, post, flags, frame, Err(e))
            &&& actions =~= report_calls(e)
        },
        _ => dispatch_post(pre, post, flags, frame, Ok((actions, outcome))),
    }
}

/// The slot the registry keeps for an identifier.
pub open spec fn slot_of<D, S>(registry: StateRegistry<D, S>, unit: i32) -> int {
    choose|i: int| 0 <= i < registry.entries@.len() && registry.entries@[i].unit == unit
}

/// One invocation of the component by the host, for the instance `unit`.
///
/// Fetches that instance's record, creating it on first sight, runs the
/// single phase this call resolves to, and returns the actions to
/// perform against the host together with the outcome.  A failure is
/// already routed through the error bridge: its actions are the host
/// diagnostic, if the failure warrants one, and the failure itself
/// travels in the outcome for the shell to log.
pub fn entrance<D, S>(
    registry: &mut StateRegistry<D, S>,
    unit: i32,
    flags: &PhaseFlags,
    frame: &HostFrame,
) -> (r: (Vec<HostCall>, CallOutcome))
    requires
        old(registry).wf(),
    ensures
        final(registry).wf(),
        final(registry).contains_unit(unit),
        ({
            let slot = slot_of(*final(registry), unit);
            let pre_len = old(registry).entries@.len() as int;
            &&& (old(registry).contains_unit(unit) ==> {
                &&& final(registry).entries@.len() == pre_len
                &&& slot == slot_of(*old(registry), unit)
                &&& entrance_post(
                    old(registry).entries@[slot].state,
                    final(registry).entries@[slot].state,
                    *flags,
                    *frame,
                    r.0@,
                    r.1,
                )
            })
            &&& (!old(registry).contains_unit(unit) ==> {
                &&& final(registry).entries@.len() == pre_len + 1
                &&& slot == pre_len
                &&& exists|fresh: TrnSysState<D, S>|
                    #[trigger] fresh.is_initial() && entrance_post(
                        fresh,
                        final(registry).entries@[slot].state,
                        *flags,
                        *frame,
                        r.0@,
                        r.1,
                    )
            })
            &&& forall|k: int|
                0 <= k < final(registry).entries@.len() && k != slot
                    ==> final(registry).entries@[k] == old(registry).entries@[k]
            &&& final(registry).entries@[slot].unit == unit
        }),
{
    let type_instance = TrnSysType::new();
    let slot = registry.get_or_create(unit);
    let ghost mid = *registry;
    let mut entry = registry.entries.remove(slot);
    let ghost pre_state = entry.state;
    let result = dispatch_call(&mut entry.state, &type_instance, flags, frame);
    let ghost post_entry = entry;
    registry.entries.insert(slot, entry);
    proof {
        let s = slot as int;
        let post = registry.entries@;
        assert(post =~= mid.entries@.update(s, post_entry));
        assert(post[s].unit == unit);
        assert forall|i: int, j: int|
            0 <= i < j < post.len() implies (#[trigger] post[i]).unit
                != (#[trigger] post[j]).unit by {
            assert(post[i].unit == mid.entries@[i].unit);
            assert(post[j].unit == mid.entries@[j].unit);
        }
        assert forall|i: int| 0 <= i < post.len() implies (#[trigger] post[i]).state.wf() by {
            if i != s {
                assert(post[i] == mid.entries@[i]);
            }
        }
        assert(registry.wf());
        assert(registry.contains_unit(unit));
        let c = slot_of(*registry, unit);
        assert(0 <= c < post.len() && post[c].unit == unit);
        crate::registry::lemma_get_or_create_identity(*registry, unit, c, s);
        if old(registry).contains_unit(unit) {
            let c0 = slot_of(*old(registry), unit);
            assert(0 <= c0 < old(registry).entries@.len() && old(registry).entries@[c0].unit
                == unit);
            crate::registry::lemma_get_or_create_identity(*old(registry), unit, c0, s);
        }
    }
    match result {
        Ok((actions, outcome)) => {
            proof {
                let s = slot as int;
                assert(entrance_post(
                    pre_state,
                    registry.entries@[s].state,
                    *flags,
                    *frame,
                    actions@,
                    outcome,
                ));
                if !old(registry).contains_unit(unit) {
                    assert(pre_state.is_initial());
                    assert(exists|fresh: TrnSysState<D, S>|
                        #[trigger] fresh.is_initial() && entrance_post(
                            fresh,
                            registry.entries@[s].state,
                            *flags,
                            *frame,
                            actions@,
                            outcome,
                        ));
                }
            }
            (actions, outcome)
        },
        Err(e) => {
            let mut actions: Vec<HostCall> = Vec::new();
            match e.handle_in_trnsys() {
                Some(call) => {
                    actions.push(call);
                },
                None => {},
            }
            proof {
                let s = slot as int;
                assert(actions@ =~= report_calls(e));
                assert(entrance_post(
                    pre_state,
                    registry.entries@[s].state,
                    *flags,
                    *frame,
                    actions@,
                    CallOutcome::Failed(e),
                ));
                if !old(registry).contains_unit(unit) {
                    assert(pre_state.is_initial());
                    assert(exists|fresh: TrnSysState<D, S>|
                        #[trigger] fresh.is_initial() && entrance_post(
                            fresh,
                            registry.entries@[s].state,
                            *flags,
                            *frame,
                            actions@,
                            CallOutcome::Failed(e),
                        ));
                }
            }
            (actions, CallOutcome::Failed(e))
        },
    }
}

/// Finishes an iterate call: takes the product the shell computed for a
/// `ComputeProduct` outcome and returns the actions that push the
/// resulting outputs, 1-based and in order.
pub fn finish_iterate(product_bits: u64) -> (calls: Vec<HostCall>)
    ensures
        calls@.len() == 1,
        calls@[0] == (HostCall::SetOutputValue { index: 1, bits: product_bits }),
{
    let type_instance = TrnSysType::new();
    let outputs = type_instance.iterate_outputs(product_bits);
    let calls = push_outputs(&outputs);
    calls
}

} // verus!
