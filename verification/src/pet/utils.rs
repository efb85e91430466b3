//! What can go wrong around an estimate of potential evapotranspiration, and
//! the length check that every such estimate starts with.

use crate::text::{decimal, decimal_string};
use vstd::prelude::*;

verus! {

/// Why a model of potential evapotranspiration was not found or not run.
#[derive(Debug)]
pub enum PetError {
    /// The two forcing series differ in length: temperature, then day of
    /// year.
    LengthMismatch(usize, usize),
    /// No model goes by this name.
    WrongModel(String),
}

impl PetError {
    /// The sentence that the error shows to a reader.
    pub open spec fn text(&self) -> Seq<char> {
        match self {
            PetError::LengthMismatch(temperature, day_of_year) => {
                "temperature and day_of_year must have the same length (got "@ + decimal(
                    *temperature as nat,
                ) + " and "@ + decimal(*day_of_year as nat) + ")"@
            },
            PetError::WrongModel(name) => {
                "Unknown model '"@ + name@ + "'. Valid options: oudin"@
            },
        }
    }

    /// Writes the error out as a sentence.
    pub fn message(&self) -> (s: String)
        ensures
            s@ == self.text(),
    {
        match self {
            PetError::LengthMismatch(temperature, day_of_year) => {
                let mut s = String::from_str(
                    "temperature and day_of_year must have the same length (got ",
                );
                s.append(decimal_string(*temperature).as_str());
                s.append(" and ");
                s.append(decimal_string(*day_of_year).as_str());
                s.append(")");
                s
            },
            PetError::WrongModel(name) => {
                let mut s = String::from_str("Unknown model '");
                s.append(name.as_str());
                s.append("'. Valid options: oudin");
                s
            },
        }
    }
}

/// The verdict on two forcing series of the given lengths: they pass when the
/// lengths agree, and otherwise the error reports both, temperature first.
pub open spec fn lengths_verdict(temperature: nat, day_of_year: nat) -> Result<(), PetError> {
    if temperature == day_of_year {
        Ok(())
    } else {
        Err(PetError::LengthMismatch(temperature as usize, day_of_year as usize))
    }
}

/// Checks that temperature and day of year cover the same timesteps.
pub fn check_lengths<T>(temperature: &[T], day_of_year: &[usize]) -> (r: Result<(), PetError>)
    ensures
        r == lengths_verdict(temperature@.len(), day_of_year@.len()),
{
    if temperature.len() != day_of_year.len() {
        Err(PetError::LengthMismatch(temperature.len(), day_of_year.len()))
    } else {
        Ok(())
    }
}

} // verus!
