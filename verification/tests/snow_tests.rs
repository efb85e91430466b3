use holmes_rs::snow::{check_lengths, SnowError};

#[test]
fn snow_equal_lengths_pass() {
    let precip = [10.0, 5.0, 0.0];
    let temp = [0.0, 0.0, 0.0];
    let doy = [1_usize, 2, 3];
    assert!(matches!(check_lengths(&precip, &temp, &doy), Ok(())));
}

#[test]
fn snow_mismatch_reports_all_three_lengths() {
    let precip = [10.0, 5.0, 0.0];
    let temp = [0.0, 0.0];
    let doy = [1_usize, 2, 3];
    assert!(matches!(
        check_lengths(&precip, &temp, &doy),
        Err(SnowError::LengthMismatch(3, 2, 3))
    ));
    assert!(matches!(
        check_lengths(&precip, &precip, &doy[..1]),
        Err(SnowError::LengthMismatch(3, 3, 1))
    ));
    assert!(matches!(
        check_lengths(&temp, &precip, &doy),
        Err(SnowError::LengthMismatch(2, 3, 3))
    ));
}

#[test]
fn snow_temperature_and_days_agree_but_not_precipitation() {
    let precip = [10.0];
    let temp = [0.0, 0.0];
    let doy = [1_usize, 2];
    assert!(matches!(
        check_lengths(&precip, &temp, &doy),
        Err(SnowError::LengthMismatch(1, 2, 2))
    ));
}

#[test]
fn snow_messages() {
    assert_eq!(
        SnowError::LengthMismatch(3, 2, 3).message(),
        "precipitation, temperature and day_of_year must have the same length (got 3, 2 and 3)"
    );
    assert_eq!(
        SnowError::ParamsMismatch(3, 2).message(),
        "expected 3 params, got 2"
    );
    assert_eq!(
        SnowError::WrongModel(String::from("degree_day")).message(),
        "Unknown model 'degree_day'. Valid options: cemaneige"
    );
    assert_eq!(
        SnowError::WrongModel(String::new()).message(),
        "Unknown model ''. Valid options: cemaneige"
    );
    assert_eq!(
        SnowError::NoElevationLayers.message(),
        "elevation_layers must not be empty"
    );
    assert_eq!(
        SnowError::ParamOutOfBounds(2).message(),
        "param 2 is outside its bounds"
    );
    assert_eq!(
        SnowError::InvalidDayOfYear(59).message(),
        "day_of_year must be at least 1 (got 0 at timestep 59)"
    );
}
