//! The discrete core of a lumped hydrological modelling engine: the registry
//! that resolves a model family by name, the parameter tables of the models,
//! the validation that every simulation runs before it computes anything, and
//! the error values with the messages they carry.
//!
//! The numerical kernels work on floating-point series and live outside this
//! crate. They hand in their series and get back a verdict, so that no
//! simulation starts on inputs that this crate has not accepted.

pub mod hydro;
pub mod metrics;
pub mod params;
pub mod pet;
pub mod snow;
pub mod text;
