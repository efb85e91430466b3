use holmes_rs::hydro::gr4j::check_inputs;
use holmes_rs::hydro::{check_lengths, HydroError};

#[test]
fn hydro_equal_lengths_pass() {
    let precip = [10.0, 5.0, 0.0];
    let pet = [1.0, 1.5, 2.0];
    assert!(matches!(check_lengths(&precip, &pet), Ok(())));
}

#[test]
fn hydro_mismatch_reports_precipitation_first() {
    let precip = [10.0, 5.0, 0.0];
    let pet = [1.0, 1.5];
    assert!(matches!(
        check_lengths(&precip, &pet),
        Err(HydroError::LengthMismatch(3, 2))
    ));
    assert!(matches!(
        check_lengths(&pet, &precip),
        Err(HydroError::LengthMismatch(2, 3))
    ));
}

#[test]
fn gr4j_takes_four_parameters() {
    let precip = [10.0, 5.0, 0.0];
    let pet = [1.0, 1.5, 2.0];
    assert!(matches!(
        check_inputs(&[350.0, 0.0, 90.0], &precip, &pet),
        Err(HydroError::ParamsMismatch(4, 3))
    ));
    assert!(matches!(
        check_inputs(&[350.0, 0.0, 90.0, 1.7, 0.0], &precip, &pet),
        Err(HydroError::ParamsMismatch(4, 5))
    ));
    assert!(matches!(
        check_inputs(&[350.0, 0.0, 90.0, 1.7], &precip, &pet),
        Ok(3)
    ));
}

#[test]
fn gr4j_judges_parameters_before_lengths() {
    let precip = [10.0, 5.0, 0.0];
    let pet = [1.0];
    assert!(matches!(
        check_inputs(&[350.0], &precip, &pet),
        Err(HydroError::ParamsMismatch(4, 1))
    ));
    assert!(matches!(
        check_inputs(&[350.0, 0.0, 90.0, 1.7], &precip, &pet),
        Err(HydroError::LengthMismatch(3, 1))
    ));
}

#[test]
fn hydro_messages() {
    assert_eq!(
        HydroError::LengthMismatch(3, 2).message(),
        "precipitation and pet must have the same length (got 3 and 2)"
    );
    assert_eq!(
        HydroError::ParamsMismatch(4, 12).message(),
        "expected 4 params, got 12"
    );
    assert_eq!(
        HydroError::WrongModel(String::from("hbv")).message(),
        "Unknown model 'hbv'. Valid options: gr4j"
    );
}
