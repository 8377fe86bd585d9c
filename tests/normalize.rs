use salinity::normalize::{
    attach_breakdown, complete_with_default, recover_with_fallback, resolve_alkalinity, CalcError,
};

#[test]
fn measured_alkalinity_wins_over_assumed() {
    assert_eq!(resolve_alkalinity(Some(8.0_f64), Some(7.0)), Ok(8.0));
}

#[test]
fn assumed_alkalinity_fills_missing_measurement() {
    assert_eq!(resolve_alkalinity(None, Some(7.5_f64)), Ok(7.5));
}

#[test]
fn alkalinity_missing_everywhere_is_an_error() {
    assert_eq!(resolve_alkalinity::<f64>(None, None), Err(CalcError::MissingAlkalinity));
}

#[test]
fn alkalinity_zero_is_a_value_not_an_absence() {
    assert_eq!(resolve_alkalinity(Some(0.0_f64), None), Ok(0.0));
}

#[test]
fn resolving_twice_gives_the_same_result() {
    let a = resolve_alkalinity(None, Some(6.25_f64));
    let b = resolve_alkalinity(None, Some(6.25_f64));
    assert_eq!(a.unwrap().to_bits(), b.unwrap().to_bits());
}

#[test]
fn given_value_is_kept() {
    assert_eq!(complete_with_default(Some(1.2_f64), 1.3), 1.2);
}

#[test]
fn absent_value_takes_default() {
    assert_eq!(complete_with_default(None, 1.3_f64), 1.3);
}

#[test]
fn breakdown_absent_when_not_requested() {
    assert_eq!(attach_breakdown(false, vec![("sp", 35.0_f64)]), None);
}

#[test]
fn breakdown_kept_in_order_when_requested() {
    let parts = vec![("chloride", 19353.0_f64), ("sp", 35.0), ("sa", 35.165)];
    let r = attach_breakdown(true, parts.clone());
    assert_eq!(r, Some(parts));
    assert!(!r.unwrap().is_empty());
}

#[test]
fn failed_density_takes_the_fallback() {
    let failed: Result<f64, &str> = Err("out of range");
    assert_eq!(recover_with_fallback(failed, 1025.0), 1025.0);
}

#[test]
fn computed_density_is_kept() {
    let ok: Result<f64, &str> = Ok(1023.3);
    assert_eq!(recover_with_fallback(ok, 1025.0), 1023.3);
}

#[test]
fn negative_salinity_makes_gsw_fail_and_fallback_applies() {
    let d = recover_with_fallback(gsw::volume::rho(-5.0, 10.0, 0.0), 1025.0);
    assert_eq!(d, 1025.0);
}

#[test]
fn missing_alkalinity_message() {
    assert_eq!(
        CalcError::MissingAlkalinity.message(),
        "missing required data: alkalinity is given neither in the inputs nor in the assumptions"
    );
}
