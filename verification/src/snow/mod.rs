//! Snow accumulation and melt models: the family's registry.

pub mod cemaneige;
pub mod utils;

pub use utils::{check_lengths, SnowError};

use crate::params::ParamBound;
use vstd::prelude::*;

verus! {

/// The snow models that the registry knows.
#[derive(Clone, Copy, Debug, PartialEq, Eq)]
pub enum SnowModel {
    Cemaneige,
}

impl SnowModel {
    /// The name under which the registry finds the model.
    pub open spec fn spec_name(self) -> Seq<char> {
        match self {
            SnowModel::Cemaneige => "cemaneige"@,
        }
    }

    /// The bounds of the model's parameters, in the order of its parameter
    /// vector.
    pub open spec fn spec_param_bounds(self) -> Seq<ParamBound> {
        match self {
            SnowModel::Cemaneige => cemaneige::spec_param_bounds(),
        }
    }

    /// How many parameters the model takes.
    pub open spec fn spec_param_count(self) -> nat {
        match self {
            SnowModel::Cemaneige => cemaneige::PARAM_COUNT as nat,
        }
    }

    /// What the model's check of one simulation's inputs comes to.
    pub open spec fn is_outcome(
        self,
        params: nat,
        within_bounds: Seq<bool>,
        precipitation: nat,
        temperature: nat,
        day_of_year: Seq<usize>,
        elevation_layers: nat,
        r: Result<Vec<usize>, SnowError>,
    ) -> bool {
        match self {
            SnowModel::Cemaneige => cemaneige::is_outcome(
                params,
                within_bounds,
                precipitation,
                temperature,
                day_of_year,
                elevation_layers,
                r,
            ),
        }
    }

    /// The name under which the registry finds the model.
    pub fn name(&self) -> (s: &'static str)
        ensures
            s@ == self.spec_name(),
    {
        match self {
            SnowModel::Cemaneige => "cemaneige",
        }
    }

    /// How many parameters the model takes.
    pub fn param_count(&self) -> (n: usize)
        ensures
            n == self.spec_param_count(),
    {
        match self {
            SnowModel::Cemaneige => cemaneige::PARAM_COUNT,
        }
    }

    /// The bounds of the model's parameters: one for each parameter, in the
    /// order of the parameter vector, each leaving room to search.
    pub fn param_bounds(&self) -> (bounds: Vec<ParamBound>)
        ensures
            bounds@ == self.spec_param_bounds(),
            bounds@.len() == self.spec_param_count(),
            forall|i: int| 0 <= i < bounds@.len() ==> (#[trigger] bounds@[i]).is_ordered(),
    {
        match self {
            SnowModel::Cemaneige => cemaneige::param_bounds(),
        }
    }

    /// Decides whether the model may simulate on these inputs. Inputs that
    /// pass give the place in the seasonal table of every timestep.
    pub fn check_inputs<T>(
        &self,
        params: &[T],
        within_bounds: &[bool],
        precipitation: &[T],
        temperature: &[T],
        day_of_year: &[usize],
        elevation_layers: &[T],
    ) -> (r: Result<Vec<usize>, SnowError>)
        ensures
            self.is_outcome(
                params@.len(),
                within_bounds@,
                precipitation@.len(),
                temperature@.len(),
                day_of_year@,
                elevation_layers@.len(),
                r,
            ),
    {
        match self {
            SnowModel::Cemaneige => cemaneige::check_inputs(
                params,
                within_bounds,
                precipitation,
                temperature,
                day_of_year,
                elevation_layers,
            ),
        }
    }
}

/// The model that goes by `name`, if there is one.
pub open spec fn find_model(name: Seq<char>) -> Option<SnowModel> {
    if name == "cemaneige"@ {
        Some(SnowModel::Cemaneige)
    } else {
        None
    }
}

/// Resolves a model by its name. An unknown name comes back inside the
/// error, letter for letter.
pub fn get_model(model: &str) -> (r: Result<SnowModel, SnowError>)
    ensures
        find_model(model@) matches Some(m) ==> r == Ok::<SnowModel, SnowError>(m),
        find_model(model@) is None ==> (r matches Err(SnowError::WrongModel(name)) && name@
            == model@),
{
    let name = model.to_owned();
    let known = String::from_str("cemaneige");
    if name == known {
        Ok(SnowModel::Cemaneige)
    } else {
        Err(SnowError::WrongModel(name))
    }
}

/// Every model is found under its own name, and under no other.
pub proof fn lemma_name_finds_model(m: SnowModel, name: Seq<char>)
    ensures
        find_model(m.spec_name()) == Some(m),
        find_model(name) == Some(m) ==> name == m.spec_name(),
{
}

} // verus!
