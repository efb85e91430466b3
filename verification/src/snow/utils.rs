//! What can go wrong around a snow simulation, and the length check that
//! every such simulation starts with.

use crate::text::{decimal, decimal_string};
use vstd::prelude::*;

verus! {

/// Why a snow model was not found or not run.
#[derive(Debug)]
pub enum SnowError {
    /// The forcing series differ in length: precipitation, temperature, then
    /// day of year.
    LengthMismatch(usize, usize, usize),
    /// The parameter vector has the wrong length: expected, then given.
    ParamsMismatch(usize, usize),
    /// No snow model goes by this name.
    WrongModel(String),
    /// There is no elevation layer to simulate on.
    NoElevationLayers,
    /// A parameter lies outside its bound: its place in the parameter
    /// vector, counted from 0.
    ParamOutOfBounds(usize),
    /// A timestep names day 0, which is no day of the year: the timestep,
    /// counted from 0.
    InvalidDayOfYear(usize),
}

impl SnowError {
    /// The sentence that the error shows to a reader.
    pub open spec fn text(&self) -> Seq<char> {
        match self {
            SnowError::LengthMismatch(precipitation, temperature, day_of_year) => {
                "precipitation, temperature and day_of_year must have the same length (got "@
                    + decimal(*precipitation as nat) + ", "@ + decimal(*temperature as nat)
                    + " and "@ + decimal(*day_of_year as nat) + ")"@
            },
            SnowError::ParamsMismatch(expected, got) => {
                "expected "@ + decimal(*expected as nat) + " params, got "@ + decimal(*got as nat)
            },
            SnowError::WrongModel(name) => {
                "Unknown model '"@ + name@ + "'. Valid options: cemaneige"@
            },
            SnowError::NoElevationLayers => "elevation_layers must not be empty"@,
            SnowError::ParamOutOfBounds(place) => {
                "param "@ + decimal(*place as nat) + " is outside its bounds"@
            },
            SnowError::InvalidDayOfYear(timestep) => {
                "day_of_year must be at least 1 (got 0 at timestep "@ + decimal(
                    *timestep as nat,
                ) + ")"@
            },
        }
    }

    /// Writes the error out as a sentence.
    pub fn message(&self) -> (s: String)
        ensures
            s@ == self.text(),
    {
        match self {
            SnowError::LengthMismatch(precipitation, temperature, day_of_year) => {
                let mut s = String::from_str(
                    "precipitation, temperature and day_of_year must have the same length (got ",
                );
                s.append(decimal_string(*precipitation).as_str());
                s.append(", ");
                s.append(decimal_string(*temperature).as_str());
                s.append(" and ");
                s.append(decimal_string(*day_of_year).as_str());
                s.append(")");
                s
            },
            SnowError::ParamsMismatch(expected, got) => {
                let mut s = String::from_str("expected ");
                s.append(decimal_string(*expected).as_str());
                s.append(" params, got ");
                s.append(decimal_string(*got).as_str());
                s
            },
            SnowError::WrongModel(name) => {
                let mut s = String::from_str("Unknown model '");
                s.append(name.as_str());
                s.append("'. Valid options: cemaneige");
                s
            },
            SnowError::NoElevationLayers => String::from_str("elevation_layers must not be empty"),
            SnowError::ParamOutOfBounds(place) => {
                let mut s = String::from_str("param ");
                s.append(decimal_string(*place).as_str());
                s.append(" is outside its bounds");
                s
            },
            SnowError::InvalidDayOfYear(timestep) => {
                let mut s = String::from_str("day_of_year must be at least 1 (got 0 at timestep ");
                s.append(decimal_string(*timestep).as_str());
                s.append(")");
                s
            },
        }
    }
}

/// The verdict on three forcing series of the given lengths: they pass when
/// temperature and day of year are both as long as precipitation, and
/// otherwise the error reports all three lengths, in this order.
pub open spec fn lengths_verdict(precipitation: nat, temperature: nat, day_of_year: nat) -> Result<
    (),
    SnowError,
> {
    if precipitation == temperature && precipitation == day_of_year {
        Ok(())
    } else {
        Err(
            SnowError::LengthMismatch(
                precipitation as usize,
                temperature as usize,
                day_of_year as usize,
            ),
        )
    }
}

/// Checks that precipitation, temperature and day of year cover the same
/// timesteps.
pub fn check_lengths<T>(precipitation: &[T], temperature: &[T], day_of_year: &[usize]) -> (r:
    Result<(), SnowError>)
    ensures
        r == lengths_verdict(precipitation@.len(), temperature@.len(), day_of_year@.len()),
{
    if precipitation.len() != temperature.len() || precipitation.len() != day_of_year.len() {
        Err(
            SnowError::LengthMismatch(
                precipitation.len(),
                temperature.len(),
                day_of_year.len(),
            ),
        )
    } else {
        Ok(())
    }
}

} // verus!
