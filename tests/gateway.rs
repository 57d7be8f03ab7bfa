use rust_enclave::compartment::Compartment;
use rust_enclave::gateway::{Gateway, SequenceError};
use rust_enclave::status::{CallError, STATUS_SUCCESS};

fn run(outcomes: &[Result<(), CallError>]) -> (Vec<usize>, u64, Result<(), SequenceError>) {
    let compartment = Compartment::launched(STATUS_SUCCESS, 11).unwrap();
    let mut gateway = Gateway::new(compartment, outcomes.len());
    let mut ran = Vec::new();
    while let Some(k) = gateway.next_operation() {
        ran.push(k);
        gateway.record(outcomes[k]);
    }
    let (compartment, result) = gateway.finish();
    (ran, compartment.destroy(), result)
}

#[test]
fn four_operations_all_succeed() {
    let (ran, id, result) = run(&[Ok(()), Ok(()), Ok(()), Ok(())]);
    assert_eq!(ran, vec![0, 1, 2, 3]);
    assert_eq!(id, 11);
    assert_eq!(result, Ok(()));
}

#[test]
fn sequence_stops_at_first_failure() {
    let (ran, id, result) =
        run(&[Ok(()), Ok(()), Err(CallError::Operation(5)), Ok(()), Err(CallError::Dispatch(1))]);
    assert_eq!(ran, vec![0, 1, 2]);
    assert_eq!(id, 11);
    assert_eq!(result, Err(SequenceError { operation: 2, cause: CallError::Operation(5) }));
}

#[test]
fn first_operation_failing_runs_nothing_else() {
    let (ran, _, result) = run(&[Err(CallError::Dispatch(2)), Ok(())]);
    assert_eq!(ran, vec![0]);
    assert_eq!(result, Err(SequenceError { operation: 0, cause: CallError::Dispatch(2) }));
}

#[test]
fn empty_sequence_succeeds() {
    let (ran, _, result) = run(&[]);
    assert!(ran.is_empty());
    assert_eq!(result, Ok(()));
}

#[test]
fn progress_counts_completed_operations() {
    let compartment = Compartment::launched(STATUS_SUCCESS, 3).unwrap();
    let mut gateway = Gateway::new(compartment, 2);
    assert_eq!(gateway.compartment().id(), 3);
    gateway.record(Ok(()));
    assert_eq!(gateway.progress().completed, 1);
    assert_eq!(gateway.progress().failure, None);
    assert_eq!(gateway.next_operation(), Some(1));
}
