//! The GR4J rainfall-runoff model, as far as its callers need to know it: how
//! many parameters it takes and which inputs a simulation accepts. Its
//! reservoirs and routing are numerical work and stand outside this crate.

use super::utils::{lengths_verdict, HydroError};
use vstd::prelude::*;

verus! {

/// How many parameters the model takes.
pub const PARAM_COUNT: usize = 4;

/// The verdict on the inputs of one simulation, given the length of the
/// parameter vector and of the two forcing series. The parameter count is
/// judged first; then the forcing lengths. Inputs that pass yield the number
/// of timesteps, which is the length of the output series.
pub open spec fn inputs_verdict(params: nat, precipitation: nat, pet: nat) -> Result<
    usize,
    HydroError,
> {
    if params != PARAM_COUNT {
        Err(HydroError::ParamsMismatch(PARAM_COUNT, params as usize))
    } else {
        match lengths_verdict(precipitation, pet) {
            Ok(()) => Ok(precipitation as usize),
            Err(e) => Err(e),
        }
    }
}

/// Decides whether a simulation may run on these inputs, before any of it is
/// computed, and tells how many timesteps its output covers.
pub fn check_inputs<T>(params: &[T], precipitation: &[T], pet: &[T]) -> (r: Result<
    usize,
    HydroError,
>)
    ensures
        r == inputs_verdict(params@.len(), precipitation@.len(), pet@.len()),
        params@.len() != PARAM_COUNT ==> r == Err::<usize, HydroError>(
            HydroError::ParamsMismatch(PARAM_COUNT, params@.len() as usize),
        ),
        params@.len() == PARAM_COUNT && precipitation@.len() != pet@.len() ==> r == Err::<
            usize,
            HydroError,
        >(HydroError::LengthMismatch(precipitation@.len() as usize, pet@.len() as usize)),
        r is Ok <==> params@.len() == PARAM_COUNT && precipitation@.len() == pet@.len(),
        r matches Ok(timesteps) ==> timesteps == precipitation@.len() && timesteps == pet@.len(),
{
    if params.len() != PARAM_COUNT {
        return Err(HydroError::ParamsMismatch(PARAM_COUNT, params.len()));
    }
    match super::utils::check_lengths(precipitation, pet) {
        Ok(()) => Ok(precipitation.len()),
        Err(e) => Err(e),
    }
}

} // verus!
