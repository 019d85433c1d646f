use miow::{OpState, OsError, Overlapped, StateError};

#[test]
fn descriptor_cycle() {
    let mut o = Overlapped::new();
    assert_eq!(o.state(), OpState::Idle);
    assert_eq!(o.arm(), Ok(()));
    assert_eq!(o.state(), OpState::Pending);
    assert_eq!(o.result(), None);
    assert_eq!(o.complete(Ok(12)), Ok(()));
    assert_eq!(o.bytes_transferred(), Some(12));
    assert_eq!(o.result(), Some(Ok(12)));
    assert_eq!(o.take_result(), Ok(Ok(12)));
    assert_eq!(o.state(), OpState::Idle);
    assert_eq!(o.arm(), Ok(()));
}

#[test]
fn wrong_state_transitions_are_refused() {
    let mut o = Overlapped::new();
    assert_eq!(o.complete(Ok(1)), Err(StateError::NotPending));
    assert_eq!(o.take_result(), Err(StateError::NotCompleted));
    assert_eq!(o.submit_failed(), Err(StateError::NotPending));
    o.arm().unwrap();
    assert_eq!(o.arm(), Err(StateError::NotIdle));
    assert_eq!(o.state(), OpState::Pending);
}

#[test]
fn failed_operation_result() {
    let mut o = Overlapped::new();
    o.arm().unwrap();
    o.complete(Err(OsError { code: 38 })).unwrap();
    assert_eq!(o.bytes_transferred(), None);
    assert_eq!(o.take_result(), Ok(Err(OsError { code: 38 })));
}

#[test]
fn failed_submission_returns_to_idle() {
    let mut o = Overlapped::new();
    o.arm().unwrap();
    assert_eq!(o.submit_failed(), Ok(()));
    assert_eq!(o.state(), OpState::Idle);
}
