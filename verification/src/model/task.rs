use vstd::prelude::*;

verus! {

/// Identifies the task that a service payload belongs to.
pub trait TaskId {
    /// The task id as a sequence of characters.
    spec fn task_id_view(&self) -> Seq<char>;

    fn task_id(&self) -> (id: &str)
        ensures
            id@ == self.task_id_view(),
    ;
}

/// The event sent by a service to indicate completion.
/// `payload` holds the service's response as JSON text.
#[derive(Debug)]
pub struct CompletedTask {
    pub invocation_id: String,
    pub task_id: String,
    pub payload: String,
}

/// A task of a workflow invocation as it is kept in the state store.
#[derive(Debug)]
pub struct WorkflowTask {
    pub invocation_id: String,
    pub task_id: String,
    pub state: WorkflowTaskState,
}

/// The progress of a task: dispatched to its service, or completed with a
/// JSON payload.
#[derive(Debug)]
pub enum WorkflowTaskState {
    Started,
    Completed(String),
}

impl Clone for WorkflowTaskState {
    fn clone(&self) -> (r: Self)
        ensures
            r == *self,
    {
        match self {
            WorkflowTaskState::Started => WorkflowTaskState::Started,
            WorkflowTaskState::Completed(payload) => WorkflowTaskState::Completed(payload.clone()),
        }
    }
}

impl Clone for WorkflowTask {
    fn clone(&self) -> (r: Self)
        ensures
            r == *self,
    {
        WorkflowTask {
            invocation_id: self.invocation_id.clone(),
            task_id: self.task_id.clone(),
            state: self.state.clone(),
        }
    }
}

impl Clone for CompletedTask {
    fn clone(&self) -> (r: Self)
        ensures
            r == *self,
    {
        CompletedTask {
            invocation_id: self.invocation_id.clone(),
            task_id: self.task_id.clone(),
            payload: self.payload.clone(),
        }
    }
}

/// The stored form of a completed task: same ids, state `Completed` with the payload.
pub open spec fn completed_task_spec(task: CompletedTask) -> WorkflowTask {
    WorkflowTask {
        invocation_id: task.invocation_id,
        task_id: task.task_id,
        state: WorkflowTaskState::Completed(task.payload),
    }
}

impl From<CompletedTask> for WorkflowTask {
    fn from(task: CompletedTask) -> (r: WorkflowTask) {
        WorkflowTask {
            invocation_id: task.invocation_id,
            task_id: task.task_id,
            state: WorkflowTaskState::Completed(task.payload),
        }
    }
}

impl vstd::std_specs::convert::FromSpecImpl<CompletedTask> for WorkflowTask {
    open spec fn obeys_from_spec() -> bool {
        true
    }

    open spec fn from_spec(task: CompletedTask) -> WorkflowTask {
        completed_task_spec(task)
    }
}

} // verus!
