use lambda_workflow::model::{Error, WorkflowError};
use lambda_workflow::state::{StateError, StateErrorReason, StateOperation};
use lambda_workflow::workflow::batch_handler::{
    after_publish, batch_response, collect_batch_failures, SqsBatchResponse,
};

/// Runs `handler` on every body, publishes every response successfully, and
/// answers the batch as the runtime does.
fn run_batch<F: Fn(&str) -> Result<(), WorkflowError>>(handler: F, bodies: &[&str]) -> SqsBatchResponse {
    let ids: Vec<Option<String>> = bodies.iter().map(|_| None).collect();
    let results: Vec<Result<(), WorkflowError>> = bodies
        .iter()
        .map(|body| after_publish(handler(body), Ok(())))
        .collect();
    batch_response(ids, results)
}

#[test]
fn successful_batch() {
    // NOOP handler
    let handler = |_req: &str| Result::<(), WorkflowError>::Ok(());
    let response = run_batch(handler, &["value 1", "value 2"]);
    assert!(matches!(response.batch_item_failures.len(), 0));
}

#[test]
fn suspend_treated_as_success() {
    // Handler which will throw a suspension error
    let handler = |_req: &str| Result::<(), WorkflowError>::Err(WorkflowError::Suspended);
    let response = run_batch(handler, &["value 1"]);
    assert!(matches!(response.batch_item_failures.len(), 0));
}

#[test]
fn single_item_fail() {
    // Throw only on item 2
    let handler = |req: &str| {
        if req == "value 1" {
            Result::<(), WorkflowError>::Ok(())
        } else {
            Result::<(), WorkflowError>::Err(WorkflowError::Error(Error::State(StateError {
                state_key: "value 1".to_string(),
                operation: StateOperation::GetTask,
                reason: StateErrorReason::MissingEntry,
            })))
        }
    };
    let response = run_batch(handler, &["value 1", "value 2"]);
    assert!(matches!(response.batch_item_failures.len(), 1));
}

#[test]
fn failures_keep_message_order_and_skip_suspended() {
    let ids = vec!["a".to_string(), "b".to_string(), "c".to_string(), "d".to_string()];
    let results: Vec<Result<u8, WorkflowError>> = vec![
        Err(WorkflowError::Error(Error::Other("x".to_string()))),
        Ok(1),
        Err(WorkflowError::Suspended),
        Err(WorkflowError::Error(Error::Other("y".to_string()))),
    ];
    let failures = collect_batch_failures(&ids, results);
    let names: Vec<&str> = failures.iter().map(|f| f.item_identifier.as_str()).collect();
    assert_eq!(names, vec!["a", "d"]);
}

#[test]
fn failures_pair_only_as_many_messages_as_results() {
    let ids = vec!["a".to_string(), "b".to_string()];
    let results: Vec<Result<(), WorkflowError>> = vec![Err(WorkflowError::Error(Error::Other("x".to_string())))];
    let failures = collect_batch_failures(&ids, results);
    assert_eq!(failures.len(), 1);
    assert_eq!(failures[0].item_identifier, "a");
}

#[test]
fn message_without_id_is_reported_with_empty_id() {
    let response = batch_response(
        vec![None, Some("m2".to_string())],
        vec![
            Err::<(), WorkflowError>(WorkflowError::Error(Error::Other("x".to_string()))),
            Err(WorkflowError::Error(Error::Other("y".to_string()))),
        ],
    );
    let names: Vec<&str> = response.batch_item_failures.iter().map(|f| f.item_identifier.as_str()).collect();
    assert_eq!(names, vec!["", "m2"]);
}

#[test]
fn failed_publication_fails_the_message() {
    let result = after_publish(Ok::<u8, WorkflowError>(3), Err(WorkflowError::Error(Error::Other("down".to_string()))));
    assert!(matches!(result, Err(WorkflowError::Error(Error::Other(ref m))) if m == "down"));
    let kept = after_publish(Ok::<u8, WorkflowError>(3), Ok(()));
    assert!(matches!(kept, Ok(3)));
    let suspended = after_publish(Err::<u8, WorkflowError>(WorkflowError::Suspended), Err(WorkflowError::Suspended));
    assert!(matches!(suspended, Err(WorkflowError::Suspended)));
}
