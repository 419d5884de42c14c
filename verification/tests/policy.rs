use refgate::validate::classify_outcome;
use refgate::validate::early_screen;
use refgate::validate::process_inputs;
use refgate::validate::validate_use;
use refgate::validate::Operation;
use refgate::validate::PathError;
use refgate::validate::Probe;
use refgate::validate::UseOutcome;

#[test]
fn stale_probe_does_not_rescue_a_vanished_path() {
    // The probe passed, then the path was deleted before the operation that
    // used it ran: the verdict follows the operation's own outcome.
    let r = validate_use("data.txt", Operation::Read, Some(Probe::Passed), UseOutcome::Missing);
    assert_eq!(r.unwrap_err(), PathError::NotFound);
}

#[test]
fn stale_probe_does_not_rescue_a_repermissioned_path() {
    // The probe passed, then the path's permissions were withdrawn before
    // the use.
    let r = validate_use(
        "data.txt",
        Operation::OpenForWrite,
        Some(Probe::Passed),
        UseOutcome::PermissionDenied,
    );
    assert_eq!(r.unwrap_err(), PathError::NotReadable);
}

#[test]
fn failed_probe_does_not_doom_a_working_use() {
    let r = validate_use("data.txt", Operation::Read, Some(Probe::Failed), UseOutcome::Succeeded);
    let handle = r.expect("a use whose own operation succeeded is admitted");
    assert_eq!(handle.path, "data.txt");
    assert_eq!(handle.op, Operation::Read);
}

#[test]
fn same_outcome_same_verdict_whatever_the_probe() {
    let outcomes = [
        UseOutcome::Succeeded,
        UseOutcome::Missing,
        UseOutcome::PermissionDenied,
        UseOutcome::WrongKind,
        UseOutcome::ChangedDuringUse,
    ];
    for outcome in outcomes {
        let with_pass = validate_use("p", Operation::Stat, Some(Probe::Passed), outcome);
        let with_fail = validate_use("p", Operation::Stat, Some(Probe::Failed), outcome);
        let with_none = validate_use("p", Operation::Stat, None, outcome);
        assert_eq!(with_pass.is_ok(), with_fail.is_ok());
        assert_eq!(with_pass.is_ok(), with_none.is_ok());
        assert_eq!(with_pass.as_ref().err(), with_fail.as_ref().err());
        assert_eq!(with_pass.as_ref().err(), with_none.as_ref().err());
    }
}

#[test]
fn every_failure_is_classified_by_cause() {
    assert_eq!(classify_outcome(UseOutcome::Succeeded), None);
    assert_eq!(classify_outcome(UseOutcome::Missing), Some(PathError::NotFound));
    assert_eq!(classify_outcome(UseOutcome::PermissionDenied), Some(PathError::NotReadable));
    assert_eq!(classify_outcome(UseOutcome::WrongKind), Some(PathError::WrongKind));
    assert_eq!(classify_outcome(UseOutcome::ChangedDuringUse), Some(PathError::RaceDetected));
}

#[test]
fn run_fails_on_first_rejected_use() {
    let outcomes = vec![
        UseOutcome::Succeeded,
        UseOutcome::Missing,
        UseOutcome::PermissionDenied,
    ];
    assert_eq!(process_inputs(&outcomes), Err((1, PathError::NotFound)));
}

#[test]
fn run_succeeds_when_every_use_succeeds() {
    let outcomes = vec![UseOutcome::Succeeded, UseOutcome::Succeeded, UseOutcome::Succeeded];
    assert_eq!(process_inputs(&outcomes), Ok(()));
    assert_eq!(process_inputs(&Vec::new()), Ok(()));
}

#[test]
fn a_race_seen_mid_use_is_its_own_failure_class() {
    let outcomes = vec![UseOutcome::ChangedDuringUse];
    assert_eq!(process_inputs(&outcomes), Err((0, PathError::RaceDetected)));
}

#[test]
fn early_screen_fails_fast_but_only_advises() {
    assert!(early_screen(Probe::Failed));
    assert!(!early_screen(Probe::Passed));
}

#[test]
fn each_failure_class_describes_itself() {
    let classes = [
        PathError::NotFound,
        PathError::NotReadable,
        PathError::WrongKind,
        PathError::RaceDetected,
    ];
    for class in classes {
        assert!(!class.describe().is_empty());
    }
    assert_eq!(PathError::NotFound.describe(), "path does not exist");
}
