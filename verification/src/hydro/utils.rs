//! What can go wrong around a rainfall-runoff simulation, and the length
//! check that every such simulation starts with.

use crate::text::{decimal, decimal_string};
use vstd::prelude::*;

verus! {

/// Why a rainfall-runoff model was not found or not run.
#[derive(Debug)]
pub enum HydroError {
    /// The two forcing series differ in length: precipitation, then
    /// potential evapotranspiration.
    LengthMismatch(usize, usize),
    /// The parameter vector has the wrong length: expected, then given.
    ParamsMismatch(usize, usize),
    /// No rainfall-runoff model goes by this name.
    WrongModel(String),
}

impl HydroError {
    /// The sentence that the error shows to a reader.
    pub open spec fn text(&self) -> Seq<char> {
        match self {
            HydroError::LengthMismatch(precipitation, pet) => {
                "precipitation and pet must have the same length (got "@ + decimal(
                    *precipitation as nat,
                ) + " and "@ + decimal(*pet as nat) + ")"@
            },
            HydroError::ParamsMismatch(expected, got) => {
                "expected "@ + decimal(*expected as nat) + " params, got "@ + decimal(*got as nat)
            },
            HydroError::WrongModel(name) => {
                "Unknown model '"@ + name@ + "'. Valid options: gr4j"@
            },
        }
    }

    /// Writes the error out as a sentence.
    pub fn message(&self) -> (s: String)
        ensures
            s@ == self.text(),
    {
        match self {
            HydroError::LengthMismatch(precipitation, pet) => {
                let mut s = String::from_str(
                    "precipitation and pet must have the same length (got ",
                );
                s.append(decimal_string(*precipitation).as_str());
                s.append(" and ");
                s.append(decimal_string(*pet).as_str());
                s.append(")");
                s
            },
            HydroError::ParamsMismatch(expected, got) => {
                let mut s = String::from_str("expected ");
                s.append(decimal_string(*expected).as_str());
                s.append(" params, got ");
                s.append(decimal_string(*got).as_str());
                s
            },
            HydroError::WrongModel(name) => {
                let mut s = String::from_str("Unknown model '");
                s.append(name.as_str());
                s.append("'. Valid options: gr4j");
                s
            },
        }
    }
}

/// The verdict on two forcing series of the given lengths: they pass when the
/// lengths agree, and otherwise the error reports both, precipitation first.
pub open spec fn lengths_verdict(precipitation: nat, pet: nat) -> Result<(), HydroError> {
    if precipitation == pet {
        Ok(())
    } else {
        Err(HydroError::LengthMismatch(precipitation as usize, pet as usize))
    }
}

/// Checks that precipitation and potential evapotranspiration cover the same
/// timesteps.
pub fn check_lengths<T>(precipitation: &[T], pet: &[T]) -> (r: Result<(), HydroError>)
    ensures
        r == lengths_verdict(precipitation@.len(), pet@.len()),
{
    if precipitation.len() != pet.len() {
        Err(HydroError::LengthMismatch(precipitation.len(), pet.len()))
    } else {
        Ok(())
    }
}

} // verus!
