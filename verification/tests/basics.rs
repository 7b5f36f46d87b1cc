use whitepool::{SessionResult, Status, WorkerState};

#[test]
fn it_works() {
    let result = 2 + 2;
    assert_eq!(result, 4);
}

#[test]
fn enums_compare_by_variant() {
    assert_eq!(SessionResult::Full, SessionResult::Full);
    assert_ne!(SessionResult::Timeout, SessionResult::Closed);
    assert_eq!(WorkerState::Continue, WorkerState::Continue);
    assert_ne!(WorkerState::Continue, WorkerState::Disconnected);
    assert_ne!(Status::SenderNotFound, Status::SendersRepetive);
}
