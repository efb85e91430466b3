//! The CemaNeige snow accumulation and melt model, as far as it works on
//! whole numbers: its parameter table, the inputs that a simulation accepts,
//! and the place of each timestep in the season. The thermal state, the
//! snowpack and the melt of each elevation layer are floating-point work and
//! stand outside this crate.

use super::utils::{lengths_verdict, SnowError};
use crate::params::ParamBound;
use vstd::prelude::*;

verus! {

/// How many parameters the model takes: the weight of the thermal state
/// (`ctg`), the degree-day melt factor (`kf`) and the snowpack threshold
/// (`qnbv`), in this order.
pub const PARAM_COUNT: usize = 3;

/// How many days the seasonal table covers.
pub const SEASON_LENGTH: usize = 365;

/// The names of the parameters, in the order of the parameter vector.
pub open spec fn spec_param_names() -> Seq<Seq<char>> {
    seq!["ctg"@, "kf"@, "qnbv"@]
}

/// The bounds of the parameters, in the order of the parameter vector.
pub open spec fn spec_param_bounds() -> Seq<ParamBound> {
    seq![
        ParamBound { lower: 0, upper: 1 },
        ParamBound { lower: 0, upper: 20 },
        ParamBound { lower: 50, upper: 800 },
    ]
}

/// The names of the parameters, in the order of the parameter vector.
pub fn param_names() -> (names: Vec<&'static str>)
    ensures
        names@.len() == PARAM_COUNT,
        forall|i: int| 0 <= i < names@.len() ==> names@[i]@ == #[trigger] spec_param_names()[i],
{
    let mut names: Vec<&'static str> = Vec::new();
    names.push("ctg");
    names.push("kf");
    names.push("qnbv");
    names
}

/// The bounds of the parameters, in the order of the parameter vector. There
/// is one bound for each parameter, and each leaves room to search.
pub fn param_bounds() -> (bounds: Vec<ParamBound>)
    ensures
        bounds@ == spec_param_bounds(),
        bounds@.len() == PARAM_COUNT,
        forall|i: int| 0 <= i < bounds@.len() ==> (#[trigger] bounds@[i]).is_ordered(),
{
    let mut bounds: Vec<ParamBound> = Vec::new();
    bounds.push(ParamBound { lower: 0, upper: 1 });
    bounds.push(ParamBound { lower: 0, upper: 20 });
    bounds.push(ParamBound { lower: 50, upper: 800 });
    assert(bounds@ =~= spec_param_bounds());
    bounds
}

/// Whether the caller found the parameter at `place` within its bound. The
/// parameters are floating-point values, so the caller compares each with its
/// bound and hands in the outcomes, in the order of the parameter vector. A
/// parameter for which no outcome was handed in counts as outside.
pub open spec fn found_inside(within_bounds: Seq<bool>, place: int) -> bool {
    0 <= place < within_bounds.len() && within_bounds[place]
}

/// The first parameter that was found outside its bound, if there is one.
pub open spec fn first_outside(within_bounds: Seq<bool>) -> Option<usize> {
    if !found_inside(within_bounds, 0) {
        Some(0usize)
    } else if !found_inside(within_bounds, 1) {
        Some(1usize)
    } else if !found_inside(within_bounds, 2) {
        Some(2usize)
    } else {
        None
    }
}

/// The error on which a simulation is refused before its days are looked
/// at, if it is. The parameter count is judged first; then the forcing
/// lengths; then that there is an elevation layer; then the bounds of the
/// parameters.
pub open spec fn early_refusal(
    params: nat,
    within_bounds: Seq<bool>,
    precipitation: nat,
    temperature: nat,
    day_of_year: nat,
    elevation_layers: nat,
) -> Option<SnowError> {
    if params != PARAM_COUNT {
        Some(SnowError::ParamsMismatch(PARAM_COUNT, params as usize))
    } else {
        match lengths_verdict(precipitation, temperature, day_of_year) {
            Err(e) => Some(e),
            Ok(()) => if elevation_layers == 0 {
                Some(SnowError::NoElevationLayers)
            } else {
                match first_outside(within_bounds) {
                    Some(place) => Some(SnowError::ParamOutOfBounds(place)),
                    None => None,
                }
            },
        }
    }
}

/// Every timestep names a day of the year, that is a day from 1 on.
pub open spec fn days_are_valid(day_of_year: Seq<usize>) -> bool {
    forall|t: int| 0 <= t < day_of_year.len() ==> day_of_year[t] >= 1
}

/// Timestep `t` is the first that names day 0.
pub open spec fn is_first_day_zero(day_of_year: Seq<usize>, t: int) -> bool {
    &&& 0 <= t < day_of_year.len()
    &&& day_of_year[t] == 0
    &&& forall|u: int| 0 <= u < t ==> day_of_year[u] >= 1
}

/// `season` holds the place in the seasonal table of every timestep, in
/// order.
pub open spec fn is_season(season: Seq<usize>, day_of_year: Seq<usize>) -> bool {
    &&& season.len() == day_of_year.len()
    &&& forall|t: int|
        0 <= t < season.len() ==> season[t] < SEASON_LENGTH && Some(#[trigger] season[t] as nat)
            == spec_seasonal_index(day_of_year[t] as nat)
}

/// What the check of one simulation's inputs comes to. Inputs that are
/// refused early give that error. Otherwise a timestep that names day 0 is
/// refused, the first such timestep being reported; and inputs that pass
/// give the place in the seasonal table of every timestep, so that the
/// result is as long as the output series.
pub open spec fn is_outcome(
    params: nat,
    within_bounds: Seq<bool>,
    precipitation: nat,
    temperature: nat,
    day_of_year: Seq<usize>,
    elevation_layers: nat,
    r: Result<Vec<usize>, SnowError>,
) -> bool {
    match early_refusal(
        params,
        within_bounds,
        precipitation,
        temperature,
        day_of_year.len(),
        elevation_layers,
    ) {
        Some(e) => r == Err::<Vec<usize>, SnowError>(e),
        None => match r {
            Ok(season) => days_are_valid(day_of_year) && is_season(season@, day_of_year),
            Err(e) => e matches SnowError::InvalidDayOfYear(t) && is_first_day_zero(
                day_of_year,
                t as int,
            ),
        },
    }
}

/// Tells whether the parameter at `place` was found outside its bound.
fn found_outside(within_bounds: &[bool], place: usize) -> (outside: bool)
    ensures
        outside == !found_inside(within_bounds@, place as int),
{
    place >= within_bounds.len() || !within_bounds[place]
}

/// Decides whether a simulation may run on these inputs, before any of it is
/// computed. `within_bounds` tells of each parameter whether the caller found
/// it within its bound. Inputs that pass give the place in the seasonal table
/// of every timestep: one index for each value of the output series.
pub fn check_inputs<T>(
    params: &[T],
    within_bounds: &[bool],
    precipitation: &[T],
    temperature: &[T],
    day_of_year: &[usize],
    elevation_layers: &[T],
) -> (r: Result<Vec<usize>, SnowError>)
    ensures
        is_outcome(
            params@.len(),
            within_bounds@,
            precipitation@.len(),
            temperature@.len(),
            day_of_year@,
            elevation_layers@.len(),
            r,
        ),
        params@.len() != PARAM_COUNT ==> r == Err::<Vec<usize>, SnowError>(
            SnowError::ParamsMismatch(PARAM_COUNT, params@.len() as usize),
        ),
        params@.len() == PARAM_COUNT && !(precipitation@.len() == temperature@.len()
            && precipitation@.len() == day_of_year@.len()) ==> r == Err::<Vec<usize>, SnowError>(
            SnowError::LengthMismatch(
                precipitation@.len() as usize,
                temperature@.len() as usize,
                day_of_year@.len() as usize,
            ),
        ),
        r matches Ok(season) ==> season@.len() == precipitation@.len() && season@.len()
            == temperature@.len() && season@.len() == day_of_year@.len(),
{
    if params.len() != PARAM_COUNT {
        return Err(SnowError::ParamsMismatch(PARAM_COUNT, params.len()));
    }
    match super::utils::check_lengths(precipitation, temperature, day_of_year) {
        Ok(()) => {},
        Err(e) => {
            return Err(e);
        },
    }
    if elevation_layers.len() == 0 {
        return Err(SnowError::NoElevationLayers);
    }
    if found_outside(within_bounds, 0) {
        return Err(SnowError::ParamOutOfBounds(0));
    }
    if found_outside(within_bounds, 1) {
        return Err(SnowError::ParamOutOfBounds(1));
    }
    if found_outside(within_bounds, 2) {
        return Err(SnowError::ParamOutOfBounds(2));
    }
    seasonal_indices(day_of_year)
}

/// The place of a day of the year in the seasonal table. Days count from 1
/// and run round the table: day 366 stands where day 1 stands. Day 0 names
/// no day and has no place.
pub open spec fn spec_seasonal_index(day_of_year: nat) -> Option<nat> {
    if day_of_year == 0 {
        None
    } else {
        Some(((day_of_year - 1) % (SEASON_LENGTH as int)) as nat)
    }
}

/// Finds the place of a day of the year in the seasonal table, or `None` for
/// day 0, which the table cannot hold.
pub fn seasonal_index(day_of_year: usize) -> (r: Option<usize>)
    ensures
        r is Some <==> day_of_year >= 1,
        r matches Some(i) ==> i < SEASON_LENGTH && spec_seasonal_index(day_of_year as nat)
            == Some(i as nat),
{
    if day_of_year == 0 {
        None
    } else {
        Some((day_of_year - 1) % SEASON_LENGTH)
    }
}

/// Finds the place in the seasonal table of every timestep of a simulation.
/// The result has one index for each timestep, in order. A timestep that
/// names day 0 is refused, and the first such timestep is reported.
pub fn seasonal_indices(day_of_year: &[usize]) -> (r: Result<Vec<usize>, SnowError>)
    ensures
        match r {
            Ok(season) => days_are_valid(day_of_year@) && is_season(season@, day_of_year@),
            Err(e) => e matches SnowError::InvalidDayOfYear(t) && is_first_day_zero(
                day_of_year@,
                t as int,
            ),
        },
{
    let mut season: Vec<usize> = Vec::new();
    let mut t: usize = 0;
    while t < day_of_year.len()
        invariant
            t <= day_of_year@.len(),
            season@.len() == t,
            forall|u: int| 0 <= u < t ==> day_of_year@[u] >= 1,
            forall|u: int|
                0 <= u < t ==> season@[u] < SEASON_LENGTH && Some(#[trigger] season@[u] as nat)
                    == spec_seasonal_index(day_of_year@[u] as nat),
        decreases day_of_year@.len() - t,
    {
        match seasonal_index(day_of_year[t]) {
            Some(i) => season.push(i),
            None => {
                return Err(SnowError::InvalidDayOfYear(t));
            },
        }
        t = t + 1;
    }
    Ok(season)
}

/// The seasonal table repeats: a whole season later a day falls on the same
/// place.
pub proof fn lemma_season_repeats(day_of_year: nat)
    requires
        day_of_year >= 1,
    ensures
        spec_seasonal_index(day_of_year + SEASON_LENGTH as nat) == spec_seasonal_index(
            day_of_year,
        ),
{
}

} // verus!
