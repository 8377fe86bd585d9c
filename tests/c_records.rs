use salinity::c_records::{
    call_status, flag_set, optional_from_flag, STATUS_CALCULATION_FAILED, STATUS_NULL_POINTER,
    STATUS_OK,
};
use salinity::normalize::CalcError;
use salinity::version;

#[test]
fn any_nonzero_flag_is_true() {
    assert!(!flag_set(0));
    assert!(flag_set(1));
    assert!(flag_set(255));
}

#[test]
fn presence_flag_selects_value() {
    assert_eq!(optional_from_flag(19000.0_f64, 1), Some(19000.0));
    assert_eq!(optional_from_flag(0.0_f64, 7), Some(0.0));
    assert_eq!(optional_from_flag(19000.0_f64, 0), None);
}

#[test]
fn status_codes() {
    assert_eq!(call_status(true, Ok(())), STATUS_OK);
    assert_eq!(call_status(false, Ok(())), STATUS_NULL_POINTER);
    assert_eq!(call_status(false, Err(CalcError::MissingAlkalinity)), STATUS_NULL_POINTER);
    assert_eq!(call_status(true, Err(CalcError::MissingAlkalinity)), STATUS_CALCULATION_FAILED);
    assert_eq!(STATUS_OK, 0);
    assert_eq!(STATUS_NULL_POINTER, -1);
}

#[test]
fn version_names_the_library() {
    assert_eq!(version(), "salinity 0.1.0");
}
