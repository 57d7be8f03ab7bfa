use rust_enclave::status::{check_call, check_dispatch, CallError, STATUS_SUCCESS};

#[test]
fn both_statuses_success() {
    assert_eq!(check_call(STATUS_SUCCESS, STATUS_SUCCESS), Ok(()));
}

#[test]
fn outer_failure_wins_over_inner() {
    assert_eq!(check_call(2, 3), Err(CallError::Dispatch(2)));
    assert_eq!(check_call(2, STATUS_SUCCESS), Err(CallError::Dispatch(2)));
}

#[test]
fn inner_failure_after_dispatch() {
    assert_eq!(check_call(STATUS_SUCCESS, 1), Err(CallError::Operation(1)));
}

#[test]
fn dispatch_only_call() {
    assert_eq!(check_dispatch(STATUS_SUCCESS), Ok(()));
    assert_eq!(check_dispatch(0x2001), Err(CallError::Dispatch(0x2001)));
}
