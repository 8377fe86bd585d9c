//! Errors of the command-line pipeline.

use vstd::prelude::*;
use crate::normalize::CalcError;

verus! {

/// `serde_json::Error`, the error of a failed JSON parse or serialisation.
/// Opaque here: it is only carried through to the caller.
#[verifier::external_type_specification]
#[verifier::external_body]
pub struct ExJsonError(serde_json::Error);

/// `std::io::Error`, the error of a failed read from standard input or a file.
/// Opaque here: it is only carried through to the caller.
#[verifier::external_type_specification]
#[verifier::external_body]
pub struct ExIoError(std::io::Error);

/// Why a run of the command-line pipeline stopped.
pub enum AppError {
    ReadStdin { source: std::io::Error },
    ReadFile { path: String, source: std::io::Error },
    ParseInputsJson { source: serde_json::Error },
    ParseAssumptionsJson { source: serde_json::Error },
    ParseCmdInputJson { source: serde_json::Error },
    SerializeOutput { source: serde_json::Error },
    Other(String),
    MissingInputData,
    MissingAssumptions,
    /// The calculation refused the request (see [`CalcError`]).
    Calculation(CalcError),
}

} // verus!
