//! The component's own behaviour: the hooks each phase invokes.
//!
//! The dispatcher owns the call protocol; the hooks here hold what this
//! particular component does inside it.  The solve itself is a
//! placeholder: the component declares one parameter, one input and one
//! output, demands a positive integer parameter, and produces the input
//! scaled by that parameter.  The scaling of the two host values is
//! floating-point work the library does not perform itself: `iterate`
//! decides and hands out a scaling request, and `iterate_outputs` turns
//! the computed product back into the output buffer.

use vstd::prelude::*;

use crate::error::{InputError, TrnSysError};
use crate::state::TrnSysState;
use crate::value::{
    integer_value, is_fraction_conversion_error, is_integral, is_nan, is_nan_conversion_error,
    saturate_i32, TrnSysValue,
};

verus! {

/// A request to scale one host value by an integer factor; the work is
/// done outside the library and the product handed back.
#[derive(Debug, Clone, Copy, PartialEq, Eq, Structural)]
pub struct ProductRequest {
    /// Raw bits of the value to scale.
    pub input_bits: u64,
    /// The integer factor to scale by.
    pub factor: i32,
}

/// Whether the first parameter lets the validation pass: it must be
/// present, encode an integer, and be positive after narrowing.
pub open spec fn first_parameter_valid(params: Seq<TrnSysValue>) -> bool {
    &&& params.len() >= 1
    &&& is_integral(params[0].bits)
    &&& saturate_i32(integer_value(params[0].bits)) > 0
}

/// The failure `validate_parameters` produces for a given parameter
/// buffer that does not pass.
pub open spec fn first_parameter_failure(params: Seq<TrnSysValue>, e: InputError) -> bool {
    &&& e matches InputError::BadParameter { index, message }
    &&& index == 0
    &&& if params.len() == 0 {
        message@ == "Parameter 1 is missing"@
    } else if !is_integral(params[0].bits) {
        if is_nan(params[0].bits) {
            message@ == "Cannot convert NaN to i32"@
        } else {
            message@ == "Cannot convert float to i32"@
        }
    } else {
        message@ == "Parameter 1 must be greater than 0"@
    }
}

/// The component; it keeps no state of its own, everything lives in the
/// per-instance state record.
pub struct TrnSysType {}

impl TrnSysType {
    /// Creates the component.
    pub fn new() -> (t: Self)
        ensures
            t == (TrnSysType {  }),
    {
        TrnSysType {  }
    }

    /// The very first call of the simulation: declares how many
    /// parameters, inputs, outputs and derivatives this component works
    /// with.  The counts are immutable afterwards.
    pub fn first_call_of_simulation<D, S>(&self, state: &mut TrnSysState<D, S>) -> (r: Result<
        (),
        TrnSysError,
    >)
        ensures
            r is Ok,
            final(state).num_inputs == 1,
            final(state).num_params == 1,
            final(state).num_derivatives == 0,
            final(state).num_outputs == 1,
            final(state).trnsys_standard_version == old(state).trnsys_standard_version,
            final(state).params == old(state).params,
            final(state).num_labels == old(state).num_labels,
            final(state).labels == old(state).labels,
            final(state).inputs == old(state).inputs,
            final(state).default_output_values == old(state).default_output_values,
            final(state).outputs == old(state).outputs,
            final(state).iteration_mode == old(state).iteration_mode,
            final(state).dynamic_store == old(state).dynamic_store,
            final(state).static_store == old(state).static_store,
    {
        state.num_inputs = 1;
        state.num_params = 1;
        state.num_derivatives = 0;
        state.num_outputs = 1;
        Ok(())
    }

    /// Validates the parameter buffer at start time.
    ///
    /// Passes exactly when the first parameter is present, integral and
    /// positive; any other buffer yields a bad-parameter failure at
    /// 0-based index 0 whose message names what went wrong.
    pub fn validate_parameters<D, S>(&self, state: &mut TrnSysState<D, S>) -> (r: Result<
        (),
        InputError,
    >)
        ensures
            *final(state) == *old(state),
            r is Ok <==> first_parameter_valid(old(state).params@),
            r matches Err(e) ==> first_parameter_failure(old(state).params@, e),
    {
        if state.params.len() == 0 {
            return Err(InputError::BadParameter {
                index: 0,
                message: "Parameter 1 is missing".to_owned(),
            });
        }
        let param0: i32 = match state.params[0].try_to_i32() {
            Ok(v) => v,
            Err(e) => {
                let message = match e {
                    TrnSysError::ConversionError { message, .. } => message,
                    _ => "Cannot convert float to i32".to_owned(),
                };
                return Err(InputError::BadParameter { index: 0, message });
            },
        };
        if param0 <= 0 {
            return Err(InputError::BadParameter {
                index: 0,
                message: "Parameter 1 must be greater than 0".to_owned(),
            });
        }
        Ok(())
    }

    /// Called once at the beginning of the simulation, after the
    /// parameters have been validated and the default outputs pushed.
    pub fn simulation_starts<D, S>(&self, state: &mut TrnSysState<D, S>) -> (r: Result<
        (),
        TrnSysError,
    >)
        ensures
            *final(state) == *old(state),
            r is Ok,
    {
        Ok(())
    }

    /// Called once before the simulation shuts down, whether it ends
    /// cleanly or in error.
    pub fn simulation_ends<D, S>(&self, state: &mut TrnSysState<D, S>) -> (r: Result<
        (),
        TrnSysError,
    >)
        ensures
            *final(state) == *old(state),
            r is Ok,
    {
        Ok(())
    }

    /// The per-iteration solve.  Reads the first input and the first
    /// parameter and decides the scaling request whose product becomes
    /// the single output; fails when the parameter does not encode an
    /// integer.
    pub fn iterate<D, S>(&self, state: &mut TrnSysState<D, S>) -> (r: Result<
        ProductRequest,
        TrnSysError,
    >)
        requires
            old(state).inputs@.len() >= 1,
            old(state).params@.len() >= 1,
        ensures
            *final(state) == *old(state),
            r is Ok <==> is_integral(old(state).params@[0].bits),
            is_integral(old(state).params@[0].bits) ==> r == Ok::<ProductRequest, TrnSysError>(
                ProductRequest {
                    input_bits: old(state).inputs@[0].bits,
                    factor: saturate_i32(integer_value(old(state).params@[0].bits)),
                },
            ),
            r matches Err(e) ==> if is_nan(old(state).params@[0].bits) {
                is_nan_conversion_error(e)
            } else {
                is_fraction_conversion_error(e)
            },
    {
        let first: u64 = state.inputs[0].bits;
        let param0: i32 = match state.params[0].try_to_i32() {
            Ok(v) => v,
            Err(e) => {
                return Err(e);
            },
        };
        Ok(ProductRequest { input_bits: first, factor: param0 })
    }

    /// Turns the computed product into the output buffer: this component
    /// produces exactly one output, the product itself.
    pub fn iterate_outputs(&self, product_bits: u64) -> (outputs: Vec<TrnSysValue>)
        ensures
            outputs@.len() == 1,
            outputs@[0].bits == product_bits,
    {
        let mut outputs: Vec<TrnSysValue> = Vec::new();
        outputs.push(TrnSysValue { bits: product_bits });
        outputs
    }

    /// Called once at the end of each timestep, after the last iteration
    /// of the step.
    pub fn end_of_timestep<D, S>(&self, state: &mut TrnSysState<D, S>) -> (r: Result<
        (),
        TrnSysError,
    >)
        ensures
            *final(state) == *old(state),
            r is Ok,
    {
        Ok(())
    }

    /// The output values pushed at start time, before the first solve:
    /// one zero per declared output.
    pub fn get_default_output_values<D, S>(&self, state: &mut TrnSysState<D, S>) -> (r: Result<
        Vec<TrnSysValue>,
        TrnSysError,
    >)
        requires
            old(state).wf(),
        ensures
            *final(state) == *old(state),
            r matches Ok(v) && v@.len() == old(state).num_outputs && (forall|i: int|
                0 <= i < v@.len() ==> v@[i].bits == 0),
    {
        let count: usize = state.num_outputs as usize;
        let mut defaults: Vec<TrnSysValue> = Vec::new();
        let mut i: usize = 0;
        while i < count
            invariant
                i <= count,
                defaults@.len() == i,
                forall|k: int| 0 <= k < i ==> defaults@[k].bits == 0,
            decreases count - i,
        {
            defaults.push(TrnSysValue { bits: 0 });
            i = i + 1;
        }
        Ok(defaults)
    }
}

} // verus!
