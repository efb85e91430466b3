//! Goodness-of-fit metrics score a simulated series against an observed one.
//! The scores themselves are floating-point work and stand outside this
//! crate; what every metric checks first, and the error it reports, is here.

use crate::text::{decimal, decimal_string};
use vstd::prelude::*;

verus! {

/// Why a metric was not computed.
#[derive(Debug)]
pub enum MetricsError {
    /// The two series differ in length: observations, then simulations.
    LengthMismatch(usize, usize),
    /// The series hold no timestep, so there is nothing to score.
    EmptySeries,
    /// All observations are equal, so their spread is zero and a score that
    /// divides by it has no value.
    ConstantObservations,
    /// All simulated values are equal, so their spread is zero and their
    /// correlation with the observations has no value.
    ConstantSimulations,
    /// The observations average to zero, so a bias relative to their mean
    /// has no value.
    ZeroMeanObservations,
}

impl MetricsError {
    /// The sentence that the error shows to a reader.
    pub open spec fn text(&self) -> Seq<char> {
        match self {
            MetricsError::LengthMismatch(observations, simulations) => {
                "observations and simulations must have the same length (got "@ + decimal(
                    *observations as nat,
                ) + " and "@ + decimal(*simulations as nat) + ")"@
            },
            MetricsError::EmptySeries => "observations and simulations must not be empty"@,
            MetricsError::ConstantObservations => "observations must not all be equal"@,
            MetricsError::ConstantSimulations => "simulations must not all be equal"@,
            MetricsError::ZeroMeanObservations => "observations must not average to zero"@,
        }
    }

    /// Writes the error out as a sentence.
    pub fn message(&self) -> (s: String)
        ensures
            s@ == self.text(),
    {
        match self {
            MetricsError::LengthMismatch(observations, simulations) => {
                let mut s = String::from_str(
                    "observations and simulations must have the same length (got ",
                );
                s.append(decimal_string(*observations).as_str());
                s.append(" and ");
                s.append(decimal_string(*simulations).as_str());
                s.append(")");
                s
            },
            MetricsError::EmptySeries => String::from_str(
                "observations and simulations must not be empty",
            ),
            MetricsError::ConstantObservations => String::from_str(
                "observations must not all be equal",
            ),
            MetricsError::ConstantSimulations => String::from_str(
                "simulations must not all be equal",
            ),
            MetricsError::ZeroMeanObservations => String::from_str(
                "observations must not average to zero",
            ),
        }
    }
}

/// The verdict on an observed and a simulated series of the given lengths:
/// they pass when the lengths agree, and otherwise the error reports both,
/// observations first.
pub open spec fn lengths_verdict(observations: nat, simulations: nat) -> Result<
    (),
    MetricsError,
> {
    if observations == simulations {
        Ok(())
    } else {
        Err(MetricsError::LengthMismatch(observations as usize, simulations as usize))
    }
}

/// Checks that the observed and the simulated series cover the same
/// timesteps, as every metric requires.
pub fn check_lengths<T>(observations: &[T], simulations: &[T]) -> (r: Result<(), MetricsError>)
    ensures
        r == lengths_verdict(observations@.len(), simulations@.len()),
{
    if observations.len() != simulations.len() {
        Err(MetricsError::LengthMismatch(observations.len(), simulations.len()))
    } else {
        Ok(())
    }
}

/// The verdict on the two series of one score: they must agree in length,
/// which is judged first, and hold at least one timestep. Series that pass
/// yield the number of timesteps.
pub open spec fn series_verdict(observations: nat, simulations: nat) -> Result<
    usize,
    MetricsError,
> {
    if observations != simulations {
        Err(MetricsError::LengthMismatch(observations as usize, simulations as usize))
    } else if observations == 0 {
        Err(MetricsError::EmptySeries)
    } else {
        Ok(observations as usize)
    }
}

/// Decides whether a metric may score these two series, before any of it is
/// computed, and tells how many timesteps they hold. What only arithmetic on
/// the values can show (a spread or a mean of zero) is left to the metric,
/// which reports it with the errors of this module.
pub fn check_series<T>(observations: &[T], simulations: &[T]) -> (r: Result<usize, MetricsError>)
    ensures
        r == series_verdict(observations@.len(), simulations@.len()),
        r matches Ok(timesteps) ==> timesteps >= 1 && timesteps == observations@.len()
            && timesteps == simulations@.len(),
{
    match check_lengths(observations, simulations) {
        Err(e) => Err(e),
        Ok(()) => {
            if observations.len() == 0 {
                Err(MetricsError::EmptySeries)
            } else {
                Ok(observations.len())
            }
        },
    }
}

} // verus!
