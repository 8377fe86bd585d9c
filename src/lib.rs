//! Decision logic of a seawater summary calculator: how measured ion
//! concentrations and assumptions are completed before the numeric model
//! runs, how the intermediate breakdown is attached, how the command-line
//! pipeline advances from stage to stage, and how the fixed-layout records of
//! the C interface encode optional values.
//!
//! The numeric model itself works on floating-point values and lives beside
//! this library; everything here is plain data and is verified.

pub mod c_records;
pub mod error;
pub mod normalize;
pub mod pipeline;

use vstd::prelude::*;

verus! {

/// Name and version of this library, for compatibility diagnostics.
pub const VERSION: &'static str = "salinity 0.1.0";

/// The static version identifier of this library.
pub fn version() -> (r: &'static str)
    ensures
        r@ == VERSION@,
{
    VERSION
}

} // verus!
