use holmes_rs::metrics::{check_lengths, check_series, MetricsError};

#[test]
fn metrics_tests_test_length_mismatch() {
    let obs = [1.0, 2.0, 3.0];
    let sim = [1.0, 2.0];

    let result = check_lengths(&obs, &sim);
    assert!(matches!(result, Err(MetricsError::LengthMismatch(3, 2))));
}

#[test]
fn metrics_equal_lengths_pass() {
    let obs = [1.0, 5.0, 10.0, 2.0];
    let sim = [2.0, 4.0, 8.0, 3.0];
    assert!(matches!(check_lengths(&obs, &sim), Ok(())));
}

#[test]
fn metrics_empty_series_pass() {
    let obs: [f64; 0] = [];
    let sim: [f64; 0] = [];
    assert!(matches!(check_lengths(&obs, &sim), Ok(())));
}

#[test]
fn metrics_mismatch_reports_observations_first() {
    let obs = [1.0];
    let sim = [1.0, 2.0, 3.0, 4.0];
    assert!(matches!(
        check_lengths(&obs, &sim),
        Err(MetricsError::LengthMismatch(1, 4))
    ));
}

#[test]
fn metrics_mismatch_against_empty_series() {
    let obs = [1.0, 2.0];
    let sim: [f64; 0] = [];
    assert!(matches!(
        check_lengths(&obs, &sim),
        Err(MetricsError::LengthMismatch(2, 0))
    ));
}

#[test]
fn metrics_message_names_both_lengths() {
    assert_eq!(
        MetricsError::LengthMismatch(3, 2).message(),
        "observations and simulations must have the same length (got 3 and 2)"
    );
}

#[test]
fn metrics_messages_of_degenerate_series() {
    assert_eq!(
        MetricsError::EmptySeries.message(),
        "observations and simulations must not be empty"
    );
    assert_eq!(
        MetricsError::ConstantObservations.message(),
        "observations must not all be equal"
    );
    assert_eq!(
        MetricsError::ConstantSimulations.message(),
        "simulations must not all be equal"
    );
    assert_eq!(
        MetricsError::ZeroMeanObservations.message(),
        "observations must not average to zero"
    );
}

#[test]
fn series_of_one_length_give_their_timesteps() {
    let obs = [1.0, 2.0, 3.0, 4.0, 5.0];
    let sim = [5.0, 4.0, 3.0, 2.0, 1.0];
    assert!(matches!(check_series(&obs, &sim), Ok(5)));
    assert!(matches!(check_series(&obs[..1], &sim[..1]), Ok(1)));
}

#[test]
fn series_of_two_lengths_are_refused() {
    let obs = [1.0, 2.0, 3.0];
    let sim = [1.0, 2.0];
    assert!(matches!(
        check_series(&obs, &sim),
        Err(MetricsError::LengthMismatch(3, 2))
    ));
}

#[test]
fn empty_series_are_refused() {
    let none: [f64; 0] = [];
    assert!(matches!(
        check_series(&none, &none),
        Err(MetricsError::EmptySeries)
    ));
}

#[test]
fn lengths_are_judged_before_emptiness() {
    let none: [f64; 0] = [];
    assert!(matches!(
        check_series(&none, &[1.0]),
        Err(MetricsError::LengthMismatch(0, 1))
    ));
    assert!(matches!(
        check_series(&[1.0, 2.0], &none),
        Err(MetricsError::LengthMismatch(2, 0))
    ));
}
