//! Rainfall-runoff models: the family's registry.

pub mod gr4j;
pub mod utils;

pub use utils::{check_lengths, HydroError};

use vstd::prelude::*;

verus! {

/// The rainfall-runoff models that the registry knows.
#[derive(Clone, Copy, Debug, PartialEq, Eq)]
pub enum HydroModel {
    Gr4j,
}

impl HydroModel {
    /// The name under which the registry finds the model.
    pub open spec fn spec_name(self) -> Seq<char> {
        match self {
            HydroModel::Gr4j => "gr4j"@,
        }
    }

    /// How many parameters the model takes.
    pub open spec fn spec_param_count(self) -> nat {
        match self {
            HydroModel::Gr4j => gr4j::PARAM_COUNT as nat,
        }
    }

    /// The verdict of the model on the inputs of one simulation.
    pub open spec fn inputs_verdict(self, params: nat, precipitation: nat, pet: nat) -> Result<
        usize,
        HydroError,
    > {
        match self {
            HydroModel::Gr4j => gr4j::inputs_verdict(params, precipitation, pet),
        }
    }

    /// The name under which the registry finds the model.
    pub fn name(&self) -> (s: &'static str)
        ensures
            s@ == self.spec_name(),
    {
        match self {
            HydroModel::Gr4j => "gr4j",
        }
    }

    /// How many parameters the model takes.
    pub fn param_count(&self) -> (n: usize)
        ensures
            n == self.spec_param_count(),
    {
        match self {
            HydroModel::Gr4j => gr4j::PARAM_COUNT,
        }
    }

    /// Decides whether the model may simulate on these inputs, and over how
    /// many timesteps.
    pub fn check_inputs<T>(&self, params: &[T], precipitation: &[T], pet: &[T]) -> (r: Result<
        usize,
        HydroError,
    >)
        ensures
            r == self.inputs_verdict(params@.len(), precipitation@.len(), pet@.len()),
    {
        match self {
            HydroModel::Gr4j => gr4j::check_inputs(params, precipitation, pet),
        }
    }
}

/// The model that goes by `name`, if there is one.
pub open spec fn find_model(name: Seq<char>) -> Option<HydroModel> {
    if name == "gr4j"@ {
        Some(HydroModel::Gr4j)
    } else {
        None
    }
}

/// Resolves a model by its name. An unknown name comes back inside the
/// error, letter for letter.
pub fn get_model(model: &str) -> (r: Result<HydroModel, HydroError>)
    ensures
        find_model(model@) matches Some(m) ==> r == Ok::<HydroModel, HydroError>(m),
        find_model(model@) is None ==> (r matches Err(HydroError::WrongModel(name)) && name@
            == model@),
{
    let name = model.to_owned();
    let known = String::from_str("gr4j");
    if name == known {
        Ok(HydroModel::Gr4j)
    } else {
        Err(HydroError::WrongModel(name))
    }
}

/// Every model is found under its own name, and under no other.
pub proof fn lemma_name_finds_model(m: HydroModel, name: Seq<char>)
    ensures
        find_model(m.spec_name()) == Some(m),
        find_model(name) == Some(m) ==> name == m.spec_name(),
{
}

} // verus!
