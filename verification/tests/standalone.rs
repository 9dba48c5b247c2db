use lambda_workflow::standalone::batch::collect_batch_failures;
use lambda_workflow::standalone::in_memory_state::InMemoryStateStore;
use lambda_workflow::standalone::logger::{LogLevel, StdoutLogger};
use lambda_workflow::standalone::model::{CallResult, CallState, WorkflowError, WorkflowEvent, WorkflowId};
use lambda_workflow::standalone::service::DummyService;
use lambda_workflow::standalone::sqs_service::SqsService;
use lambda_workflow::standalone::state::StateStore;
use lambda_workflow::standalone::workflow_engine::{WorkflowContext, WorkflowEngine};
use lambda_workflow::standalone::workflow_example::{workflow_example, RequestExample};

type Engine = WorkflowEngine<InMemoryStateStore<RequestExample>>;

/// Accepts an event and runs the example workflow on it, as the handler of
/// each queue message does.
fn handle(engine: &mut Engine, event: WorkflowEvent<RequestExample>) -> Result<(), WorkflowError> {
    let ctx: WorkflowContext<RequestExample> = engine.accept(event).map_err(WorkflowError::Error)?;
    let _result = workflow_example(ctx, &mut engine.state_store);
    Ok(())
}

#[test]
fn test_event_handler() {
    let mut engine: Engine = WorkflowEngine::new();

    let request = WorkflowEvent::Request(RequestExample {
        id: "id_1".to_string(),
        item_id: "item_1".to_string(),
    });

    let request2: WorkflowEvent<RequestExample> = WorkflowEvent::Update(CallResult {
        workflow_id: "id_1".to_string(),
        call_id: "item_1".to_string(),
        value: "value 1".to_string(),
    });

    let events = vec![request.clone(), request2.clone(), request.clone()];
    let results: Vec<Result<(), WorkflowError>> = events.into_iter().map(|e| handle(&mut engine, e)).collect();
    let failures = collect_batch_failures(vec![String::new(), String::new(), String::new()], results);

    println!("Batch handler results {:?}", failures);
    assert!(failures.is_empty());
}

#[test]
fn example_workflow_suspends_then_responds_with_the_call_value() {
    let mut engine: Engine = WorkflowEngine::new();
    let request = RequestExample { id: "id_1".to_string(), item_id: "item_1".to_string() };

    let ctx = engine.accept(WorkflowEvent::Request(request.clone())).unwrap();
    let first = workflow_example(ctx, &mut engine.state_store);
    assert!(matches!(first, Err(WorkflowError::Suspended)));
    assert!(matches!(engine.state_store.get_call("item_1"), Some(CallState::Running)));

    let ctx = engine
        .accept(WorkflowEvent::Update(CallResult {
            workflow_id: "id_1".to_string(),
            call_id: "item_1".to_string(),
            value: "value 1".to_string(),
        }))
        .unwrap();
    let response = workflow_example(ctx, &mut engine.state_store).unwrap();
    assert_eq!(response.id, "id_1");
    assert_eq!(response.item_id, "item_1");
    assert_eq!(response.payload, "value 1");
}

#[test]
fn update_for_unknown_workflow_names_it() {
    let mut engine: Engine = WorkflowEngine::new();
    let result = engine.accept(WorkflowEvent::Update(CallResult {
        workflow_id: "ghost".to_string(),
        call_id: "c".to_string(),
        value: "v".to_string(),
    }));
    assert_eq!(result.err().unwrap(), "Failed to get workflow id ghost");
    assert!(engine.state_store.get_call("c").is_none());
}

#[test]
fn running_call_suspends_without_calling_again() {
    let mut engine: Engine = WorkflowEngine::new();
    let ctx = engine
        .accept(WorkflowEvent::Request(RequestExample { id: "w".to_string(), item_id: "i".to_string() }))
        .unwrap();
    let first = ctx.call(&mut engine.state_store, &mut DummyService {}, "c");
    assert!(matches!(first, Err(WorkflowError::Suspended)));
    let second = ctx.call(&mut engine.state_store, &mut DummyService {}, "c");
    assert!(matches!(second, Err(WorkflowError::Suspended)));
    assert!(matches!(engine.state_store.get_call("c"), Some(CallState::Running)));
}

#[test]
fn standalone_failures_skip_suspended() {
    let failures = collect_batch_failures(
        vec!["a".to_string(), "b".to_string(), "c".to_string()],
        vec![Err(WorkflowError::Error("x".to_string())), Err(WorkflowError::Suspended), Ok(())],
    );
    assert_eq!(failures.len(), 1);
    assert_eq!(failures[0].item_identifier, "a");
}

#[test]
fn event_workflow_ids() {
    let request = WorkflowEvent::Request(RequestExample { id: "r".to_string(), item_id: "i".to_string() });
    assert_eq!(request.workflow_id(), "r");
    let update: WorkflowEvent<RequestExample> =
        WorkflowEvent::Update(CallResult { workflow_id: "u".to_string(), call_id: "c".to_string(), value: "v".to_string() });
    assert_eq!(update.workflow_id(), "u");
}

#[test]
fn logger_writes_info_and_more_severe() {
    let logger = StdoutLogger;
    assert!(logger.enabled(LogLevel::Error));
    assert!(logger.enabled(LogLevel::Warn));
    assert!(logger.enabled(LogLevel::Info));
    assert!(!logger.enabled(LogLevel::Debug));
    assert!(!logger.enabled(LogLevel::Trace));
}

#[test]
fn sqs_service_keeps_its_queue() {
    assert_eq!(SqsService::new("https://queue".to_string()).queue_url, "https://queue");
}
