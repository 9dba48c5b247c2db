use lambda_workflow::model::invocation::InvocationId;
use lambda_workflow::model::task::{CompletedTask, TaskId, WorkflowTask, WorkflowTaskState};
use lambda_workflow::model::{Error, WorkflowError};
use lambda_workflow::service::service_dummy::DummyCall;
use lambda_workflow::service::{Service, ServiceError};
use lambda_workflow::state::{StateError, StateStore};
use lambda_workflow::state_in_memory::InMemoryStateStore;
use lambda_workflow::test_utils::TestStr;
use lambda_workflow::workflow::context::{decoded_response, WorkflowContext};

#[derive(Clone)]
struct TestService;

impl Service<TestStr, TestStr> for TestService {
    type Dispatch = DummyCall;

    fn name(&self) -> &'static str {
        "test service"
    }

    fn dispatcher(&self) -> DummyCall {
        DummyCall::new()
    }
}

fn body_of(task_id: &str) -> Result<String, String> {
    Ok(format!("{{\"task_id\":\"{}\"}}", task_id))
}

#[test]
fn single_call_invoked() {
    let mut state_store: InMemoryStateStore<TestStr> = InMemoryStateStore::default();
    let unique_id: String = "example".to_string();
    let request: TestStr = TestStr("test 1".to_string());

    let mut ctx: WorkflowContext<TestStr, DummyCall> =
        WorkflowContext::new(request.clone(), "test".to_string());

    let test_service: TestService = TestService {};

    let service_request = ctx.service_request(unique_id.clone(), request.clone());
    let body = body_of(&service_request.task_id);
    let pending = ctx.call(&test_service, service_request, body);

    let task_id: String = unique_id + request.task_id();

    let task: Result<WorkflowTask, StateError> =
        state_store.get_task(request.invocation_id(), task_id.as_str());
    // Task should not exist before the call is awaited
    assert!(task.is_err());

    let _response = ctx.resolve(&mut state_store, &pending);

    let task: WorkflowTask = state_store
        .get_task(request.invocation_id(), task_id.as_str())
        .expect("The second time the task should exist");

    assert!(matches!(task.state, WorkflowTaskState::Started));
}

#[test]
fn multiple_calls_invoked_concurrently() {
    let mut state_store: InMemoryStateStore<TestStr> = InMemoryStateStore::default();
    let unique_id: String = "example".to_string();
    let request_one: TestStr = TestStr("test 1".to_string());
    let request_two: TestStr = TestStr("test 2".to_string());

    let mut ctx: WorkflowContext<TestStr, DummyCall> =
        WorkflowContext::new(request_one.clone(), "test".to_string());

    let test_service: TestService = TestService {};

    let request_1 = ctx.service_request(unique_id.clone(), request_one.clone());
    let body_1 = body_of(&request_1.task_id);
    let response_fut_1 = ctx.call(&test_service, request_1, body_1);
    let request_2 = ctx.service_request(unique_id.clone(), request_two.clone());
    let body_2 = body_of(&request_2.task_id);
    let response_fut_2 = ctx.call(&test_service, request_2, body_2);

    // Both calls awaited
    let _ = ctx.resolve(&mut state_store, &response_fut_1);
    let _ = ctx.resolve(&mut state_store, &response_fut_2);

    state_store
        .get_task(request_one.invocation_id(), &*(unique_id.clone() + request_one.task_id()))
        .expect("The first task should exist");
    state_store
        .get_task(request_one.invocation_id(), &*(unique_id + request_two.task_id()))
        .expect("The second task should also exist");
}

#[test]
fn service_request_carries_ids_and_callback() {
    let ctx: WorkflowContext<TestStr, DummyCall> =
        WorkflowContext::new(TestStr("inv".to_string()), "callback".to_string());
    let request = ctx.service_request("u-".to_string(), TestStr("p".to_string()));
    assert_eq!(request.invocation_id, "inv");
    assert_eq!(request.task_id, "u-p");
    assert_eq!(request.callback_queue_url, "callback");
    assert_eq!(request.payload.0, "p");
}

#[test]
fn uncompleted_call_suspends_and_completed_call_replays() {
    let mut state_store: InMemoryStateStore<TestStr> = InMemoryStateStore::default();
    let mut ctx: WorkflowContext<TestStr, DummyCall> =
        WorkflowContext::new(TestStr("inv".to_string()), "q".to_string());
    let request = ctx.service_request("u".to_string(), TestStr("p".to_string()));
    let pending = ctx.call(&TestService, request, Ok("{}".to_string()));

    let first = ctx.resolve(&mut state_store, &pending);
    assert!(matches!(first, Err(WorkflowError::Suspended)));

    // A second await before the result arrives suspends again
    let again = ctx.resolve(&mut state_store, &pending);
    assert!(matches!(again, Err(WorkflowError::Suspended)));

    state_store
        .put_task(WorkflowTask::from(CompletedTask {
            invocation_id: "inv".to_string(),
            task_id: "up".to_string(),
            payload: "\"value 1\"".to_string(),
        }))
        .unwrap();
    let replayed = ctx.resolve(&mut state_store, &pending).unwrap();
    assert_eq!(replayed, "\"value 1\"");
}

#[test]
fn unserialisable_request_is_a_bad_request() {
    let mut state_store: InMemoryStateStore<TestStr> = InMemoryStateStore::default();
    let mut ctx: WorkflowContext<TestStr, DummyCall> =
        WorkflowContext::new(TestStr("inv".to_string()), "q".to_string());
    let request = ctx.service_request("u".to_string(), TestStr("p".to_string()));
    let pending = ctx.call(&TestService, request, Err("cannot encode".to_string()));
    let result = ctx.resolve(&mut state_store, &pending);
    assert!(matches!(
        result,
        Err(WorkflowError::Error(Error::Service(ServiceError::BadRequest(ref m)))) if m == "cannot encode"
    ));
    // The failed call was neither recorded nor dropped from the queue
    assert!(state_store.get_task("inv", "up").is_err());
    assert!(matches!(ctx.dispatch_calls(&mut state_store), Err(WorkflowError::Error(_))));
}

/// A dispatcher that writes every message it is handed into a shared log,
/// and fails the sends whose body is `"fail"`.
#[derive(Clone)]
struct LoggingDispatcher(std::rc::Rc<std::cell::RefCell<Vec<String>>>);

impl lambda_workflow::service::Dispatcher for LoggingDispatcher {
    fn send_message(&mut self, payload: String) -> Result<(), Error> {
        self.0.borrow_mut().push(payload.clone());
        if payload == "fail" {
            Err(Error::Other("send failed".to_string()))
        } else {
            Ok(())
        }
    }
}

#[derive(Clone)]
struct LoggingService(LoggingDispatcher);

impl Service<TestStr, TestStr> for LoggingService {
    type Dispatch = LoggingDispatcher;

    fn name(&self) -> &'static str {
        "logging service"
    }

    fn dispatcher(&self) -> LoggingDispatcher {
        self.0.clone()
    }
}

fn logging_context() -> (WorkflowContext<TestStr, LoggingDispatcher>, LoggingService) {
    let log = std::rc::Rc::new(std::cell::RefCell::new(Vec::new()));
    (WorkflowContext::new(TestStr("inv".to_string()), "q".to_string()), LoggingService(LoggingDispatcher(log)))
}

#[test]
fn queued_requests_are_sent_once_in_order_before_suspending() {
    let mut store: InMemoryStateStore<TestStr> = InMemoryStateStore::default();
    let (mut ctx, service) = logging_context();
    let first = ctx.service_request("a".to_string(), TestStr("1".to_string()));
    let pending = ctx.call(&service, first, Ok("body a".to_string()));
    let second = ctx.service_request("b".to_string(), TestStr("2".to_string()));
    ctx.call(&service, second, Ok("body b".to_string()));

    assert!(matches!(ctx.resolve(&mut store, &pending), Err(WorkflowError::Suspended)));
    assert_eq!(*service.0 .0.borrow(), vec!["body a".to_string(), "body b".to_string()]);
    assert!(matches!(store.get_task("inv", "a1").unwrap().state, WorkflowTaskState::Started));
    assert!(matches!(store.get_task("inv", "b2").unwrap().state, WorkflowTaskState::Started));

    // The queue was emptied: awaiting again sends nothing more
    assert!(matches!(ctx.resolve(&mut store, &pending), Err(WorkflowError::Suspended)));
    assert_eq!(service.0 .0.borrow().len(), 2);
}

#[test]
fn unserialisable_request_stops_the_dispatch_after_earlier_calls() {
    let mut store: InMemoryStateStore<TestStr> = InMemoryStateStore::default();
    let (mut ctx, service) = logging_context();
    let first = ctx.service_request("a".to_string(), TestStr("1".to_string()));
    ctx.call(&service, first, Ok("body a".to_string()));
    let second = ctx.service_request("b".to_string(), TestStr("2".to_string()));
    ctx.call(&service, second, Err("bad".to_string()));
    let third = ctx.service_request("c".to_string(), TestStr("3".to_string()));
    ctx.call(&service, third, Ok("body c".to_string()));

    let result = ctx.dispatch_calls(&mut store);
    assert!(matches!(
        result,
        Err(WorkflowError::Error(Error::Service(ServiceError::BadRequest(ref m)))) if m == "bad"
    ));
    assert_eq!(*service.0 .0.borrow(), vec!["body a".to_string()]);
    assert!(store.get_task("inv", "a1").is_ok());
    assert!(store.get_task("inv", "b2").is_err());
    assert!(store.get_task("inv", "c3").is_err());
}

#[test]
fn failed_send_is_returned_and_stops_the_dispatch() {
    let mut store: InMemoryStateStore<TestStr> = InMemoryStateStore::default();
    let (mut ctx, service) = logging_context();
    let first = ctx.service_request("a".to_string(), TestStr("1".to_string()));
    ctx.call(&service, first, Ok("fail".to_string()));
    let second = ctx.service_request("b".to_string(), TestStr("2".to_string()));
    ctx.call(&service, second, Ok("body b".to_string()));

    let result = ctx.dispatch_calls(&mut store);
    assert!(matches!(result, Err(WorkflowError::Error(Error::Other(ref m))) if m == "send failed"));
    assert_eq!(*service.0 .0.borrow(), vec!["fail".to_string()]);
    // The failing call's task was stored before its send; the next one was not
    assert!(store.get_task("inv", "a1").is_ok());
    assert!(store.get_task("inv", "b2").is_err());

    // The queue was kept, so the calls are dispatched again
    let again = ctx.dispatch_calls(&mut store);
    assert!(again.is_err());
    assert_eq!(service.0 .0.borrow().len(), 2);
}

#[test]
fn missing_task_names_the_task_id() {
    let store: InMemoryStateStore<TestStr> = InMemoryStateStore::default();
    let err = store.get_task("inv", "task").unwrap_err();
    assert_eq!(err.state_key, "task");
}

#[test]
fn parsed_response_is_returned_and_parse_failure_is_a_bad_response() {
    let ok: Result<u32, WorkflowError> = decoded_response(Ok(5));
    assert!(matches!(ok, Ok(5)));
    let bad: Result<u32, WorkflowError> = decoded_response(Err("expected value".to_string()));
    assert!(matches!(
        bad,
        Err(WorkflowError::Error(Error::Service(ServiceError::BadResponse(ref m)))) if m == "expected value"
    ));
}
