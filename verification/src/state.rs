//! The per-instance simulation state record.
//!
//! One record exists per instance identifier for the life of the process.
//! It holds the declared dimensional counts, the value buffers that are
//! rebuilt from the host at the start of each call that needs them, the
//! iteration-mode classification, and the optional tick-based stores for
//! static and dynamic storage.

use vstd::prelude::*;

use crate::history::{MemoryStorageProvider, StoreProvider};
use crate::iteration_mode::IterationMode;
use crate::value::TrnSysValue;

verus! {

/// The protocol version this component speaks.
pub const TRNSYS_STANDARD_VERSION: i32 = 18;

/// Per-instance state, reconstructed piece by piece from the host on
/// every call and owned by the registry between calls.
pub struct TrnSysState<D, S> {
    /// Protocol version reported at version-signing time; fixed at
    /// construction.
    pub trnsys_standard_version: i32,
    /// Number of parameters, set once during setup.
    pub num_params: i32,
    /// Current parameter buffer, rebuilt from the host each call.
    pub params: Vec<TrnSysValue>,
    /// Number of labels, set once during setup.
    pub num_labels: i32,
    /// Current label buffer, rebuilt alongside the parameters.
    pub labels: Vec<String>,
    /// Number of inputs, set once during setup.
    pub num_inputs: i32,
    /// Current input buffer, rebuilt from the host each call.
    pub inputs: Vec<TrnSysValue>,
    /// Number of derivatives, set once during setup.
    pub num_derivatives: i32,
    /// Number of outputs, set once during setup.
    pub num_outputs: i32,
    /// Output values pushed at start time before the first solve.
    pub default_output_values: Vec<TrnSysValue>,
    /// Current output buffer, rebuilt from the host each call.
    pub outputs: Vec<TrnSysValue>,
    /// When the host calls this instance within a timestep; immutable
    /// once advertised.
    pub iteration_mode: IterationMode,
    /// Tick-based storage for dynamic values, if the instance declared
    /// stored-variable support.
    pub dynamic_store: Option<MemoryStorageProvider<D>>,
    /// Tick-based storage for static values, if the instance declared
    /// stored-variable support.
    pub static_store: Option<MemoryStorageProvider<S>>,
}

impl<D, S> TrnSysState<D, S> {
    /// Basic soundness of a record: counts are never negative and any
    /// store present has a current slot.
    pub open spec fn wf(self) -> bool {
        &&& 0 <= self.num_params
        &&& 0 <= self.num_labels
        &&& 0 <= self.num_inputs
        &&& 0 <= self.num_derivatives
        &&& 0 <= self.num_outputs
        &&& (self.dynamic_store matches Some(store) ==> store.wf())
        &&& (self.static_store matches Some(store) ==> store.wf())
    }

    /// The zero-initialized record a fresh registry entry holds.
    pub open spec fn is_initial(self) -> bool {
        &&& self.trnsys_standard_version == TRNSYS_STANDARD_VERSION
        &&& self.num_params == 0
        &&& self.params@ =~= Seq::<TrnSysValue>::empty()
        &&& self.num_labels == 0
        &&& self.labels@ =~= Seq::<String>::empty()
        &&& self.num_inputs == 0
        &&& self.inputs@ =~= Seq::<TrnSysValue>::empty()
        &&& self.num_derivatives == 0
        &&& self.num_outputs == 0
        &&& self.default_output_values@ =~= Seq::<TrnSysValue>::empty()
        &&& self.outputs@ =~= Seq::<TrnSysValue>::empty()
        &&& self.iteration_mode == IterationMode::DynamicMode
        &&& self.dynamic_store is None
        &&& self.static_store is None
    }

    /// Creates the zero-initialized record for a fresh instance.
    pub fn new() -> (state: Self)
        ensures
            state.wf(),
            state.is_initial(),
    {
        TrnSysState {
            trnsys_standard_version: TRNSYS_STANDARD_VERSION,
            iteration_mode: IterationMode::DynamicMode,
            num_params: 0,
            params: Vec::new(),
            num_labels: 0,
            labels: Vec::new(),
            num_inputs: 0,
            inputs: Vec::new(),
            num_derivatives: 0,
            num_outputs: 0,
            outputs: Vec::new(),
            default_output_values: Vec::new(),
            static_store: None,
            dynamic_store: None,
        }
    }

    /// Everything but the parameter and label buffers is untouched.
    pub open spec fn only_params_refreshed(pre: Self, post: Self) -> bool {
        &&& post.trnsys_standard_version == pre.trnsys_standard_version
        &&& post.num_params == pre.num_params
        &&& post.num_labels == pre.num_labels
        &&& post.num_inputs == pre.num_inputs
        &&& post.inputs == pre.inputs
        &&& post.num_derivatives == pre.num_derivatives
        &&& post.num_outputs == pre.num_outputs
        &&& post.default_output_values == pre.default_output_values
        &&& post.outputs == pre.outputs
        &&& post.iteration_mode == pre.iteration_mode
        &&& post.dynamic_store == pre.dynamic_store
        &&& post.static_store == pre.static_store
    }

    /// Everything but the input and output buffers is untouched.
    pub open spec fn only_inputs_refreshed(pre: Self, post: Self) -> bool {
        &&& post.trnsys_standard_version == pre.trnsys_standard_version
        &&& post.num_params == pre.num_params
        &&& post.params == pre.params
        &&& post.num_labels == pre.num_labels
        &&& post.labels == pre.labels
        &&& post.num_inputs == pre.num_inputs
        &&& post.num_derivatives == pre.num_derivatives
        &&& post.num_outputs == pre.num_outputs
        &&& post.default_output_values == pre.default_output_values
        &&& post.iteration_mode == pre.iteration_mode
        &&& post.dynamic_store == pre.dynamic_store
        &&& post.static_store == pre.static_store
    }

    /// Rebuilds the parameter and label buffers from scratch out of the
    /// values the host handed over for this call.  The old buffers are
    /// replaced wholly, so stale values from a prior call cannot leak in.
    pub fn read_parameter_values(&mut self, param_values: &Vec<u64>, label_values: &Vec<String>)
        requires
            old(self).wf(),
            param_values@.len() == old(self).num_params,
            label_values@.len() == old(self).num_labels,
        ensures
            final(self).wf(),
            Self::only_params_refreshed(*old(self), *final(self)),
            final(self).params@.len() == param_values@.len(),
            forall|i: int|
                0 <= i < param_values@.len() ==> final(self).params@[i].bits
                    == param_values@[i],
            final(self).labels@ =~= label_values@,
    {
        let mut params: Vec<TrnSysValue> = Vec::new();
        let mut i: usize = 0;
        while i < param_values.len()
            invariant
                i <= param_values@.len(),
                params@.len() == i,
                forall|k: int| 0 <= k < i ==> params@[k].bits == param_values@[k],
            decreases param_values@.len() - i,
        {
            params.push(TrnSysValue { bits: param_values[i] });
            i = i + 1;
        }
        self.params = params;

        let mut labels: Vec<String> = Vec::new();
        let mut j: usize = 0;
        while j < label_values.len()
            invariant
                j <= label_values@.len(),
                labels@.len() == j,
                forall|k: int| 0 <= k < j ==> labels@[k] == label_values@[k],
            decreases label_values@.len() - j,
        {
            labels.push(label_values[j].clone());
            j = j + 1;
        }
        self.labels = labels;
    }

    /// Rebuilds the input and output buffers from scratch out of the
    /// values the host handed over for this call.
    pub fn read_input_values(&mut self, input_values: &Vec<u64>, output_values: &Vec<u64>)
        requires
            old(self).wf(),
            input_values@.len() == old(self).num_inputs,
            output_values@.len() == old(self).num_outputs,
        ensures
            final(self).wf(),
            Self::only_inputs_refreshed(*old(self), *final(self)),
            final(self).inputs@.len() == input_values@.len(),
            forall|i: int|
                0 <= i < input_values@.len() ==> final(self).inputs@[i].bits
                    == input_values@[i],
            final(self).outputs@.len() == output_values@.len(),
            forall|i: int|
                0 <= i < output_values@.len() ==> final(self).outputs@[i].bits
                    == output_values@[i],
    {
        let mut inputs: Vec<TrnSysValue> = Vec::new();
        let mut i: usize = 0;
        while i < input_values.len()
            invariant
                i <= input_values@.len(),
                inputs@.len() == i,
                forall|k: int| 0 <= k < i ==> inputs@[k].bits == input_values@[k],
            decreases input_values@.len() - i,
        {
            inputs.push(TrnSysValue { bits: input_values[i] });
            i = i + 1;
        }
        self.inputs = inputs;

        let mut outputs: Vec<TrnSysValue> = Vec::new();
        let mut j: usize = 0;
        while j < output_values.len()
            invariant
                j <= output_values@.len(),
                outputs@.len() == j,
                forall|k: int| 0 <= k < j ==> outputs@[k].bits == output_values@[k],
            decreases output_values@.len() - j,
        {
            outputs.push(TrnSysValue { bits: output_values[j] });
            j = j + 1;
        }
        self.outputs = outputs;
    }
}

} // verus!
