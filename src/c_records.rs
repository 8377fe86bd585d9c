//! Encoding of the fixed-layout records of the C interface.
//!
//! The C calling convention has no optional type, so an optional field is a
//! value together with a presence flag (`u8`, zero meaning absent) and a
//! boolean is a `u8` (zero meaning false). These functions turn such pairs
//! into real optional values at the boundary, and choose the status code that
//! a call through the record interface returns.

use vstd::prelude::*;
use crate::normalize::CalcError;

verus! {

/// Status of a call that stored a summary.
pub const STATUS_OK: i32 = 0;

/// Status of a call that was handed a null record pointer.
pub const STATUS_NULL_POINTER: i32 = -1;

/// Status of a call whose request the calculation refused.
pub const STATUS_CALCULATION_FAILED: i32 = -2;

/// Reads a boolean field: any non-zero byte is true.
pub fn flag_set(flag: u8) -> (r: bool)
    ensures
        r == (flag != 0),
{
    flag != 0
}

/// Reads an optional field: the value when its presence flag is non-zero,
/// absent otherwise (never a zero stand-in).
pub fn optional_from_flag<T>(value: T, present: u8) -> (r: Option<T>)
    ensures
        present != 0 ==> r == Some(value),
        present == 0 ==> r is None,
{
    if present != 0 {
        Some(value)
    } else {
        None
    }
}

/// The status code of a call through the record interface, given whether
/// both required pointers were non-null and, if so, how the calculation went.
pub fn call_status(pointers_given: bool, outcome: Result<(), CalcError>) -> (r: i32)
    ensures
        !pointers_given ==> r == STATUS_NULL_POINTER,
        pointers_given && outcome is Ok ==> r == STATUS_OK,
        pointers_given && outcome is Err ==> r == STATUS_CALCULATION_FAILED,
        r == STATUS_OK <==> pointers_given && outcome is Ok,
{
    if !pointers_given {
        STATUS_NULL_POINTER
    } else {
        match outcome {
            Ok(()) => STATUS_OK,
            Err(_) => STATUS_CALCULATION_FAILED,
        }
    }
}

} // verus!
