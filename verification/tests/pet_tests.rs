use holmes_rs::pet::{check_lengths, PetError};

#[test]
fn pet_equal_lengths_pass() {
    let temp = [10.0, 12.5, 8.0];
    let doy = [1_usize, 2, 3];
    assert!(matches!(check_lengths(&temp, &doy), Ok(())));
}

#[test]
fn pet_mismatch_reports_temperature_first() {
    let temp = [10.0, 12.5, 8.0];
    let doy = [1_usize, 2];
    assert!(matches!(
        check_lengths(&temp, &doy),
        Err(PetError::LengthMismatch(3, 2))
    ));
    assert!(matches!(
        check_lengths(&temp[..1], &doy),
        Err(PetError::LengthMismatch(1, 2))
    ));
}

#[test]
fn pet_messages() {
    assert_eq!(
        PetError::LengthMismatch(365, 366).message(),
        "temperature and day_of_year must have the same length (got 365 and 366)"
    );
    assert_eq!(
        PetError::WrongModel(String::from("penman")).message(),
        "Unknown model 'penman'. Valid options: oudin"
    );
}
