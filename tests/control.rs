use baum_welch::control::{TrainingControl, TrainingPhase};
use baum_welch::error::HmmError;

#[test]
fn runs_until_the_budget_without_convergence() {
    let mut control = TrainingControl::new(2, 3).unwrap();
    assert!(control.is_iterating());
    assert_eq!(control.record_iteration(false), TrainingPhase::Iterating);
    assert_eq!(control.record_iteration(false), TrainingPhase::Iterating);
    assert_eq!(control.record_iteration(false), TrainingPhase::Exhausted);
    assert_eq!(control.iterations(), 3);
    assert!(!control.is_iterating());
}

#[test]
fn convergence_waits_for_the_minimum() {
    let mut control = TrainingControl::new(3, 10).unwrap();
    assert_eq!(control.record_iteration(true), TrainingPhase::Iterating);
    assert_eq!(control.record_iteration(true), TrainingPhase::Iterating);
    assert_eq!(control.record_iteration(true), TrainingPhase::Converged);
    assert_eq!(control.iterations(), 3);
    assert_eq!(control.phase(), TrainingPhase::Converged);
}

#[test]
fn convergence_after_the_minimum() {
    let mut control = TrainingControl::new(1, 10).unwrap();
    assert_eq!(control.record_iteration(false), TrainingPhase::Iterating);
    assert_eq!(control.record_iteration(false), TrainingPhase::Iterating);
    assert_eq!(control.record_iteration(true), TrainingPhase::Converged);
    assert_eq!(control.iterations(), 3);
}

#[test]
fn equal_minimum_and_maximum_give_a_fixed_count() {
    let mut control = TrainingControl::new(4, 4).unwrap();
    let mut passes = 0;
    while control.is_iterating() {
        control.record_iteration(passes % 2 == 0);
        passes += 1;
    }
    assert_eq!(passes, 4);
    assert_eq!(control.iterations(), 4);
}

#[test]
fn convergence_at_the_last_pass_counts_as_convergence() {
    let mut control = TrainingControl::new(0, 1).unwrap();
    assert_eq!(control.record_iteration(true), TrainingPhase::Converged);
}

#[test]
fn empty_budget_does_nothing() {
    let control = TrainingControl::new(0, 0).unwrap();
    assert!(!control.is_iterating());
    assert_eq!(control.phase(), TrainingPhase::Exhausted);
    assert_eq!(control.iterations(), 0);
}

#[test]
fn minimum_above_maximum_is_invalid() {
    assert!(matches!(TrainingControl::new(5, 4), Err(HmmError::InvalidConfiguration)));
    assert!(TrainingControl::new(4, 4).is_ok());
}
