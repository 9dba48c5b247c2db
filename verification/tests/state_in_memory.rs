use lambda_workflow::model::invocation::WorkflowInvocation;
use lambda_workflow::model::task::{WorkflowTask, WorkflowTaskState};
use lambda_workflow::state::{entry_or_missing, StateError, StateErrorReason, StateOperation, StateStore};
use lambda_workflow::state_in_memory::InMemoryStateStore;
use lambda_workflow::test_utils::TestStr;

#[test]
fn invocation_read_after_write() {
    let mut store: InMemoryStateStore<TestStr> = InMemoryStateStore::default();
    store
        .put_invocation(WorkflowInvocation { invocation_id: "a".to_string(), request: TestStr("first".to_string()) })
        .unwrap();
    store
        .put_invocation(WorkflowInvocation { invocation_id: "b".to_string(), request: TestStr("second".to_string()) })
        .unwrap();
    store
        .put_invocation(WorkflowInvocation { invocation_id: "a".to_string(), request: TestStr("third".to_string()) })
        .unwrap();
    assert_eq!(store.get_invocation("a").unwrap().0, "third");
    assert_eq!(store.get_invocation("b").unwrap().0, "second");
}

#[test]
fn missing_invocation_is_a_missing_entry() {
    let store: InMemoryStateStore<TestStr> = InMemoryStateStore::default();
    let err: StateError = store.get_invocation("nope").unwrap_err();
    assert_eq!(err.state_key, "nope");
    assert_eq!(err.operation, StateOperation::GetInvocation);
    assert!(matches!(err.reason, StateErrorReason::MissingEntry));
}

#[test]
fn tasks_are_found_by_task_id_alone() {
    let mut store: InMemoryStateStore<TestStr> = InMemoryStateStore::default();
    store
        .put_task(WorkflowTask {
            invocation_id: "inv".to_string(),
            task_id: "t".to_string(),
            state: WorkflowTaskState::Started,
        })
        .unwrap();
    let found = store.get_task("another invocation", "t").unwrap();
    assert_eq!(found.invocation_id, "inv");
    let err = store.get_task("inv", "u").unwrap_err();
    assert_eq!(err.state_key, "u");
    assert_eq!(err.operation, StateOperation::GetTask);
    assert!(matches!(err.reason, StateErrorReason::MissingEntry));
}

#[test]
fn state_error_new_keeps_its_parts() {
    let err = StateError::new("k".to_string(), StateOperation::PutTask, StateErrorReason::BadState("x".to_string()));
    assert_eq!(err.state_key, "k");
    assert_eq!(err.operation, StateOperation::PutTask);
    assert!(matches!(err.reason, StateErrorReason::BadState(ref m) if m == "x"));
}

#[test]
fn task_read_gives_the_last_write_under_its_task_id() {
    let mut store: InMemoryStateStore<TestStr> = InMemoryStateStore::default();
    store
        .put_task(WorkflowTask { invocation_id: "inv".to_string(), task_id: "t".to_string(), state: WorkflowTaskState::Started })
        .unwrap();
    store
        .put_invocation(WorkflowInvocation { invocation_id: "inv".to_string(), request: TestStr("r".to_string()) })
        .unwrap();
    store
        .put_task(WorkflowTask {
            invocation_id: "inv".to_string(),
            task_id: "t".to_string(),
            state: WorkflowTaskState::Completed("\"done\"".to_string()),
        })
        .unwrap();
    let found = store.get_task("other", "t").unwrap();
    assert!(matches!(found.state, WorkflowTaskState::Completed(ref p) if p == "\"done\""));
    assert_eq!(store.get_invocation("inv").unwrap().0, "r");
}

#[test]
fn read_entry_is_returned_and_absent_entry_is_missing() {
    let found = entry_or_missing(Some(7u8), "k".to_string(), StateOperation::GetTask).unwrap();
    assert_eq!(found, 7);
    let err = entry_or_missing::<u8>(None, "k".to_string(), StateOperation::GetInvocation).unwrap_err();
    assert_eq!(err.state_key, "k");
    assert_eq!(err.operation, StateOperation::GetInvocation);
    assert!(matches!(err.reason, StateErrorReason::MissingEntry));
}
