use baum_welch::config::validate_problem;
use baum_welch::error::HmmError;
use baum_welch::model::HmmModel;

#[test]
fn no_hidden_states_is_invalid() {
    assert_eq!(validate_problem(0, 3, &vec![0, 1, 2]), Err(HmmError::InvalidConfiguration));
}

#[test]
fn no_observation_symbols_is_invalid() {
    assert_eq!(validate_problem(2, 0, &vec![0, 0]), Err(HmmError::InvalidConfiguration));
}

#[test]
fn empty_sequence_is_invalid() {
    assert_eq!(validate_problem(2, 3, &vec![]), Err(HmmError::InvalidConfiguration));
}

#[test]
fn single_observation_is_invalid() {
    assert_eq!(validate_problem(2, 3, &vec![1]), Err(HmmError::InvalidConfiguration));
}

#[test]
fn two_observations_are_enough() {
    assert_eq!(validate_problem(2, 3, &vec![2, 0]), Ok(()));
}

#[test]
fn symbol_at_alphabet_size_is_out_of_range() {
    assert_eq!(validate_problem(2, 3, &vec![0, 1, 3, 0]), Err(HmmError::ObservationOutOfRange));
}

#[test]
fn configuration_is_checked_before_symbols() {
    assert_eq!(validate_problem(0, 3, &vec![7, 7]), Err(HmmError::InvalidConfiguration));
}

#[test]
fn space_outside_a_letters_only_alphabet() {
    assert_eq!(validate_problem(26, 26, &vec![0, 26, 1]), Err(HmmError::ObservationOutOfRange));
    assert_eq!(validate_problem(26, 27, &vec![0, 26, 1]), Ok(()));
}

#[test]
fn model_for_minimum_length_has_its_sizes() {
    let model = HmmModel::new(2, 3, &vec![0, 2], 0.0f64).unwrap();
    assert_eq!(model.get_number_of_hidden_state_symbols(), 2);
    assert_eq!(model.get_number_of_observation_symbols(), 3);
    assert_eq!(model.get_observation_length(), 2);
    assert_eq!(model.transition(1, 1), 0.0);
    assert_eq!(model.emission(1, 2), 0.0);
    assert_eq!(model.di_gamma(1, 1, 1), 0.0);
    assert_eq!(model.scale_factor(1), 0.0);
}

#[test]
fn model_refuses_short_sequences() {
    assert!(matches!(HmmModel::new(2, 3, &vec![1], 0.0f64), Err(HmmError::InvalidConfiguration)));
    assert!(matches!(HmmModel::new(2, 3, &vec![], 0.0f64), Err(HmmError::InvalidConfiguration)));
}

#[test]
fn model_refuses_unknown_symbols() {
    assert!(matches!(HmmModel::new(2, 3, &vec![0, 5], 0.0f64), Err(HmmError::ObservationOutOfRange)));
}
