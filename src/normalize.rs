//! Completing a request before the numeric model runs.
//!
//! A field that was not measured is never read as zero: it is either taken
//! from the assumptions, replaced by an assumption default, or the request
//! fails with a missing-data error.

use vstd::prelude::*;

verus! {

/// Errors that the calculation itself reports to its caller.
#[derive(Debug, Clone, Copy, PartialEq, Eq, Structural)]
pub enum CalcError {
    /// Alkalinity was given neither with the sample nor in the assumptions.
    MissingAlkalinity,
}

impl CalcError {
    /// The message shown to a user for this error.
    pub fn message(&self) -> (r: &'static str)
        ensures
            *self == CalcError::MissingAlkalinity ==> r@ == MISSING_ALKALINITY_MESSAGE@,
    {
        match self {
            CalcError::MissingAlkalinity => MISSING_ALKALINITY_MESSAGE,
        }
    }
}

/// Message of [`CalcError::MissingAlkalinity`].
pub const MISSING_ALKALINITY_MESSAGE: &'static str =
    "missing required data: alkalinity is given neither in the inputs nor in the assumptions";

/// The alkalinity that the model uses: the measured value, else the assumed
/// one, else no value at all.
pub open spec fn alkalinity_spec<T>(measured: Option<T>, assumed: Option<T>) -> Result<T, CalcError> {
    match measured {
        Some(a) => Ok(a),
        None => match assumed {
            Some(a) => Ok(a),
            None => Err(CalcError::MissingAlkalinity),
        },
    }
}

/// Picks the alkalinity of a request: the sample's own value wins over the
/// assumption, and a request with neither is refused.
pub fn resolve_alkalinity<T>(measured: Option<T>, assumed: Option<T>) -> (r: Result<T, CalcError>)
    ensures
        r == alkalinity_spec(measured, assumed),
        measured is None && assumed is None ==> r == Err::<T, CalcError>(CalcError::MissingAlkalinity),
        r is Err <==> measured is None && assumed is None,
{
    match measured {
        Some(a) => Ok(a),
        None => match assumed {
            Some(a) => Ok(a),
            None => Err(CalcError::MissingAlkalinity),
        },
    }
}

/// The value of an optional field once the request is completed: the given
/// value, else the default that the assumptions supply.
pub open spec fn completed_spec<T>(given: Option<T>, default: T) -> T {
    match given {
        Some(v) => v,
        None => default,
    }
}

/// Completes an optional field (fluoride, borate fraction, alkalinity unit
/// factor) with the default that the assumptions give for it.
pub fn complete_with_default<T>(given: Option<T>, default: T) -> (r: T)
    ensures
        r == completed_spec(given, default),
        given is Some ==> r == given->0,
        given is None ==> r == default,
{
    match given {
        Some(v) => v,
        None => default,
    }
}

/// Attaches the ordered breakdown of intermediate quantities to a summary
/// when, and only when, `return_components` is set; otherwise the field is
/// absent altogether rather than empty.
pub fn attach_breakdown<T>(return_components: bool, components: Vec<T>) -> (r: Option<Vec<T>>)
    ensures
        return_components ==> r == Some(components),
        !return_components ==> r is None,
{
    if return_components {
        Some(components)
    } else {
        None
    }
}

/// The value of a step that may fail and has a fixed stand-in: the value on
/// success, the stand-in on failure.
pub open spec fn recovered_spec<T, E>(outcome: Result<T, E>, fallback: T) -> T {
    match outcome {
        Ok(v) => v,
        Err(_) => fallback,
    }
}

/// Swallows a failure of the equation of state: the density it computed, or
/// the fixed fallback density when it signalled an error.
pub fn recover_with_fallback<T, E>(outcome: Result<T, E>, fallback: T) -> (r: T)
    ensures
        r == recovered_spec(outcome, fallback),
        outcome is Ok ==> r == outcome->Ok_0,
        outcome is Err ==> r == fallback,
{
    match outcome {
        Ok(v) => v,
        Err(_) => fallback,
    }
}

} // verus!
