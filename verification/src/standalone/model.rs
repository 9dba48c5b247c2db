use vstd::prelude::*;

verus! {

/// The result of a call, delivered by the called service.
#[derive(Debug)]
pub struct CallResult {
    pub workflow_id: String,
    pub call_id: String,
    pub value: String,
}

impl Clone for CallResult {
    fn clone(&self) -> (r: Self)
        ensures
            r == *self,
    {
        CallResult {
            workflow_id: self.workflow_id.clone(),
            call_id: self.call_id.clone(),
            value: self.value.clone(),
        }
    }
}

/// The state of a call: waiting for its service, or completed.
#[derive(Debug)]
pub enum CallState {
    Running,
    Completed(CallResult),
}

impl Clone for CallState {
    fn clone(&self) -> (r: Self)
        ensures
            r == *self,
    {
        match self {
            CallState::Running => CallState::Running,
            CallState::Completed(result) => CallState::Completed(result.clone()),
        }
    }
}

/// Identifies the workflow that a value belongs to.
pub trait WorkflowId {
    /// The workflow id as a sequence of characters.
    spec fn workflow_id_view(&self) -> Seq<char>;

    fn workflow_id(&self) -> (id: &str)
        ensures
            id@ == self.workflow_id_view(),
    ;
}

/// An event that drives a workflow: a new request, or the result of a call.
#[derive(Debug)]
pub enum WorkflowEvent<T> {
    Request(T),
    Update(CallResult),
}

impl<T: Clone> Clone for WorkflowEvent<T> {
    fn clone(&self) -> (r: Self)
        ensures
            match *self {
                WorkflowEvent::Request(x) => r matches WorkflowEvent::Request(y) && cloned(x, y),
                WorkflowEvent::Update(result) => r == WorkflowEvent::<T>::Update(result),
            },
    {
        match self {
            WorkflowEvent::Request(request) => WorkflowEvent::Request(request.clone()),
            WorkflowEvent::Update(result) => WorkflowEvent::Update(result.clone()),
        }
    }
}

impl<T: WorkflowId> WorkflowId for WorkflowEvent<T> {
    open spec fn workflow_id_view(&self) -> Seq<char> {
        match self {
            WorkflowEvent::Request(request) => request.workflow_id_view(),
            WorkflowEvent::Update(result) => result.workflow_id@,
        }
    }

    fn workflow_id(&self) -> (id: &str) {
        match self {
            WorkflowEvent::Request(request) => request.workflow_id(),
            WorkflowEvent::Update(result) => result.workflow_id.as_str(),
        }
    }
}

/// Why a workflow stopped before producing its response.
#[derive(Debug)]
pub enum WorkflowError {
    Suspended,
    Error(String),
}

} // verus!
