use lambda_workflow::model::invocation::InvocationId;
use lambda_workflow::model::task::{CompletedTask, WorkflowTaskState};
use lambda_workflow::model::{Error, WorkflowError, WorkflowEvent};
use lambda_workflow::service::service_dummy::DummyCall;
use lambda_workflow::state::StateStore;
use lambda_workflow::state_in_memory::InMemoryStateStore;
use lambda_workflow::test_utils::TestStr;
use lambda_workflow::workflow::engine::{WorkflowContext, WorkflowEngine};

#[test]
fn test_engine_initialises_request() {
    let mut engine: WorkflowEngine<InMemoryStateStore<TestStr>, DummyCall> =
        WorkflowEngine::new(InMemoryStateStore::default(), DummyCall::new());

    let request_string: String = "test 1".to_string();
    let request: WorkflowEvent<TestStr> = WorkflowEvent::Request(request_string.clone().into());

    let _context: WorkflowContext<TestStr, DummyCall> =
        engine.accept(request).expect("Initial request should succeed");

    // Invocation should be stored in the state store
    let invocation: TestStr = engine
        .state_store
        .get_invocation(&request_string)
        .expect("Invocation should exist in state store");
    let invocation_id: String = invocation.invocation_id().to_string();

    assert_eq!(request_string, invocation_id);
}

#[test]
fn engine_call_suspends_then_replays() {
    let mut engine: WorkflowEngine<InMemoryStateStore<TestStr>, DummyCall> =
        WorkflowEngine::new(InMemoryStateStore::default(), DummyCall::new());
    let ctx: WorkflowContext<TestStr, DummyCall> =
        engine.accept(WorkflowEvent::Request(TestStr("inv".to_string()))).unwrap();

    let first = ctx.call(&mut engine.state_store, &mut DummyCall::new(), "task", "{}".to_string());
    assert!(matches!(first, Err(WorkflowError::Suspended)));
    let task = engine.state_store.get_task("inv", "task").unwrap();
    assert!(matches!(task.state, WorkflowTaskState::Started));

    // A started call suspends again
    let again = ctx.call(&mut engine.state_store, &mut DummyCall::new(), "task", "{}".to_string());
    assert!(matches!(again, Err(WorkflowError::Suspended)));

    let resumed: WorkflowContext<TestStr, DummyCall> = engine
        .accept(WorkflowEvent::Update(CompletedTask {
            invocation_id: "inv".to_string(),
            task_id: "task".to_string(),
            payload: "\"done\"".to_string(),
        }))
        .unwrap();
    let value = resumed.call(&mut engine.state_store, &mut DummyCall::new(), "task", "{}".to_string());
    assert_eq!(value.unwrap(), "\"done\"");
}

#[test]
fn engine_update_of_unknown_invocation_stores_nothing() {
    let mut engine: WorkflowEngine<InMemoryStateStore<TestStr>, DummyCall> =
        WorkflowEngine::new(InMemoryStateStore::default(), DummyCall::new());
    let result: Result<WorkflowContext<TestStr, DummyCall>, Error> = engine.accept(WorkflowEvent::Update(
        CompletedTask { invocation_id: "gone".to_string(), task_id: "t".to_string(), payload: "1".to_string() },
    ));
    assert!(matches!(result, Err(Error::State(_))));
    assert!(engine.state_store.get_task("gone", "t").is_err());
}
