//! Potential evapotranspiration: what the family shares.

pub mod utils;

pub use utils::{check_lengths, PetError};
