use zallet::ops::{
    parse_state_filter, CancelOutcome, OperationRegistry, OperationState, StateKind,
};

#[test]
fn submit_assigns_fresh_ids_in_order() {
    let mut reg = OperationRegistry::new();
    let a = reg.submit();
    let b = reg.submit();
    let c = reg.submit();
    assert_eq!((a, b, c), (0, 1, 2));
    assert_eq!(reg.state(a), Some(&OperationState::Pending));
    assert_eq!(reg.state(77), None);
}

#[test]
fn filtered_listing() {
    let mut reg = OperationRegistry::new();
    let pending = reg.submit();
    let executing = reg.submit();
    let success = reg.submit();
    let failed = reg.submit();
    assert!(reg.report_transition(executing, OperationState::Executing));
    assert!(reg.report_transition(success, OperationState::Executing));
    assert!(reg.report_transition(success, OperationState::Success(String::from("txid"))));
    assert!(reg.report_transition(failed, OperationState::Executing));
    assert!(reg.report_transition(failed, OperationState::Failed(String::from("broken"))));

    assert_eq!(reg.list(Some("unknownstate")), Vec::<u64>::new());
    assert_eq!(reg.list(Some("executing")), vec![executing]);
    assert_eq!(reg.list(None), vec![pending, executing, success, failed]);
    assert_eq!(reg.list(Some("pending")), vec![pending]);
    assert_eq!(reg.list(Some("success")), vec![success]);
    assert_eq!(reg.list(Some("failed")), vec![failed]);
}

#[test]
fn lifecycle_is_monotonic() {
    let mut reg = OperationRegistry::new();
    let id = reg.submit();
    assert_eq!(reg.state(id), Some(&OperationState::Pending));
    assert!(reg.report_transition(id, OperationState::Executing));
    assert_eq!(reg.state(id), Some(&OperationState::Executing));
    // Going backwards is rejected and changes nothing.
    assert!(!reg.report_transition(id, OperationState::Pending));
    assert_eq!(reg.state(id), Some(&OperationState::Executing));
    assert!(reg.report_transition(id, OperationState::Success(String::from("done"))));
    assert_eq!(reg.state(id), Some(&OperationState::Success(String::from("done"))));
    // A terminal state never changes again, whatever the substrate reports.
    assert!(!reg.report_transition(id, OperationState::Executing));
    assert!(!reg.report_transition(id, OperationState::Failed(String::from("late"))));
    assert!(!reg.report_transition(id, OperationState::Cancelled));
    assert_eq!(reg.state(id), Some(&OperationState::Success(String::from("done"))));
}

#[test]
fn pending_operations_cancel_immediately() {
    let mut reg = OperationRegistry::new();
    let id = reg.submit();
    assert_eq!(reg.request_cancel(id), CancelOutcome::CancelledImmediately);
    assert_eq!(reg.state(id), Some(&OperationState::Cancelled));
    // It never starts.
    assert!(!reg.report_transition(id, OperationState::Executing));
}

#[test]
fn executing_operations_cancel_cooperatively() {
    let mut reg = OperationRegistry::new();
    let id = reg.submit();
    assert!(reg.report_transition(id, OperationState::Executing));
    assert_eq!(reg.request_cancel(id), CancelOutcome::CancellationRequested);
    // The request alone does not change the state.
    assert_eq!(reg.state(id), Some(&OperationState::Executing));
    assert_eq!(reg.cancel_requested(id), Some(true));
    // The substrate honors the request at its next safe checkpoint.
    assert!(reg.report_transition(id, OperationState::Cancelled));
    assert_eq!(reg.state(id), Some(&OperationState::Cancelled));
    assert_eq!(reg.request_cancel(id), CancelOutcome::AlreadyTerminal);
}

#[test]
fn cancel_of_unknown_operation_reports_so() {
    let mut reg = OperationRegistry::new();
    assert_eq!(reg.request_cancel(5), CancelOutcome::UnknownOperation);
}

#[test]
fn filter_names_parse_permissively() {
    assert_eq!(parse_state_filter("pending"), Some(StateKind::Pending));
    assert_eq!(parse_state_filter("executing"), Some(StateKind::Executing));
    assert_eq!(parse_state_filter("success"), Some(StateKind::Success));
    assert_eq!(parse_state_filter("failed"), Some(StateKind::Failed));
    assert_eq!(parse_state_filter("cancelled"), Some(StateKind::Cancelled));
    assert_eq!(parse_state_filter("Executing"), None);
    assert_eq!(parse_state_filter(""), None);
}
