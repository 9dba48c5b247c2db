use lambda_workflow::model::invocation::InvocationId;
use lambda_workflow::model::task::{CompletedTask, WorkflowTask, WorkflowTaskState};
use lambda_workflow::model::{Error, WorkflowError, WorkflowEvent};
use lambda_workflow::service::service_dummy::DummyCall;
use lambda_workflow::service::{Dispatcher, ServiceError, ServiceRequest};
use lambda_workflow::test_utils::TestStr;

#[test]
fn event_invocation_ids() {
    let request: WorkflowEvent<TestStr> = WorkflowEvent::Request(TestStr("r".to_string()));
    assert_eq!(request.invocation_id(), "r");
    let update: WorkflowEvent<TestStr> = WorkflowEvent::Update(CompletedTask {
        invocation_id: "u".to_string(),
        task_id: "t".to_string(),
        payload: "1".to_string(),
    });
    assert_eq!(update.invocation_id(), "u");
}

#[test]
fn completed_task_becomes_a_completed_workflow_task() {
    let task: WorkflowTask = CompletedTask {
        invocation_id: "i".to_string(),
        task_id: "t".to_string(),
        payload: "[1]".to_string(),
    }
    .into();
    assert_eq!(task.invocation_id, "i");
    assert_eq!(task.task_id, "t");
    assert!(matches!(task.state, WorkflowTaskState::Completed(ref p) if p == "[1]"));
}

#[test]
fn error_converts_into_workflow_error() {
    let e: WorkflowError = Error::Service(ServiceError::BadResponse("no".to_string())).into();
    assert!(matches!(e, WorkflowError::Error(Error::Service(ServiceError::BadResponse(ref m))) if m == "no"));
}

#[test]
fn service_request_new_keeps_its_parts() {
    let r = ServiceRequest::new("i".to_string(), "t".to_string(), "q".to_string(), TestStr("p".to_string()));
    assert_eq!(r.invocation_id, "i");
    assert_eq!(r.task_id, "t");
    assert_eq!(r.callback_queue_url, "q");
    assert_eq!(r.payload.0, "p");
}

#[test]
fn dummy_dispatcher_always_sends() {
    let mut dispatcher = DummyCall::new();
    assert!(dispatcher.send_message("anything".to_string()).is_ok());
}

#[test]
fn test_str_from_string() {
    let s: TestStr = "abc".to_string().into();
    assert_eq!(s.0, "abc");
}
