pub mod invocation;
pub mod task;

use vstd::prelude::*;

pub use crate::model::invocation::InvocationId;
use crate::model::task::CompletedTask;
use crate::service::ServiceError;
use crate::state::StateError;

verus! {

/// A failure that stops a workflow: one from the state store, one from a
/// service, or one reported by a dispatcher in its own words.
#[derive(Debug)]
pub enum Error {
    State(StateError),
    Service(ServiceError),
    Other(String),
}

/// An event that drives a workflow: a new request, or the result of a task.
#[derive(Debug)]
pub enum WorkflowEvent<T> {
    Request(T),
    Update(CompletedTask),
}

impl<T: Clone> Clone for WorkflowEvent<T> {
    fn clone(&self) -> (r: Self)
        ensures
            match *self {
                WorkflowEvent::Request(x) => r matches WorkflowEvent::Request(y) && cloned(x, y),
                WorkflowEvent::Update(t) => r == WorkflowEvent::<T>::Update(t),
            },
    {
        match self {
            WorkflowEvent::Request(request) => WorkflowEvent::Request(request.clone()),
            WorkflowEvent::Update(task) => WorkflowEvent::Update(task.clone()),
        }
    }
}

impl<T: InvocationId> InvocationId for WorkflowEvent<T> {
    open spec fn invocation_id_view(&self) -> Seq<char> {
        match self {
            WorkflowEvent::Request(inner) => inner.invocation_id_view(),
            WorkflowEvent::Update(inner) => inner.invocation_id@,
        }
    }

    fn invocation_id(&self) -> (id: &str) {
        match self {
            WorkflowEvent::Request(inner) => inner.invocation_id(),
            WorkflowEvent::Update(inner) => inner.invocation_id.as_str(),
        }
    }
}

/// Why a workflow stopped before producing its response.
#[derive(Debug)]
pub enum WorkflowError {
    /// The workflow waits for a service; it resumes when the result arrives.
    Suspended,
    Error(Error),
}

impl From<Error> for WorkflowError {
    fn from(value: Error) -> (r: WorkflowError) {
        WorkflowError::Error(value)
    }
}

impl vstd::std_specs::convert::FromSpecImpl<Error> for WorkflowError {
    open spec fn obeys_from_spec() -> bool {
        true
    }

    open spec fn from_spec(value: Error) -> WorkflowError {
        WorkflowError::Error(value)
    }
}

} // verus!
