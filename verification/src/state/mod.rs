use vstd::prelude::*;

use crate::model::invocation::WorkflowInvocation;
use crate::model::task::WorkflowTask;

verus! {

/// Store state associated with the workflow.
/// It is up to the implementation whether invocations and calls are separated.
///
/// An invocation is the request that started the workflow.
/// A call (task) is an asynchronous request made from within the workflow.
///
/// The contracts speak of two abstract views: the requests stored per
/// invocation id, and the task that a lookup under an (invocation id, task id)
/// pair finds. A store that states itself `faithful` follows these views
/// exactly and never fails its writes. A store that `states_failures` says,
/// for each operation and key, whether the operation fails and for which
/// reason, and a failed write leaves it unchanged. Of any other store only the
/// operation and key of an error are stated.
pub trait StateStore<WorkflowRequest: Clone>: Sized {
    /// The stored requests, keyed by invocation id.
    open spec fn invocations(&self) -> Map<Seq<char>, WorkflowRequest> {
        Map::empty()
    }

    /// The task that a lookup under `(invocation_id, task_id)` finds, if any.
    open spec fn task_at(&self, invocation_id: Seq<char>, task_id: Seq<char>) -> Option<WorkflowTask> {
        None
    }

    /// Whether this store follows the views and succeeds in every operation;
    /// unless a store states it, nothing is assumed.
    open spec fn faithful(&self) -> bool {
        false
    }

    /// Whether this store states, through the `*_failure` functions below,
    /// which of its operations fail and why; unless a store states it,
    /// nothing is assumed.
    open spec fn states_failures(&self) -> bool {
        false
    }

    /// Why storing a request under `invocation_id` fails, or `None` where it
    /// succeeds.
    open spec fn put_invocation_failure(&self, invocation_id: Seq<char>) -> Option<StateErrorReason> {
        None
    }

    /// Why reading the request under `invocation_id` fails, or `None` where
    /// it succeeds.
    open spec fn get_invocation_failure(&self, invocation_id: Seq<char>) -> Option<StateErrorReason> {
        None
    }

    /// Why storing a task under its ids fails, or `None` where it succeeds.
    open spec fn put_task_failure(&self, invocation_id: Seq<char>, task_id: Seq<char>) -> Option<StateErrorReason> {
        None
    }

    /// Why reading the task under its ids fails, or `None` where it succeeds.
    open spec fn get_task_failure(&self, invocation_id: Seq<char>, task_id: Seq<char>) -> Option<StateErrorReason> {
        None
    }

    fn put_invocation(&mut self, invocation: WorkflowInvocation<WorkflowRequest>) -> (r: Result<(), StateError>)
        ensures
            final(self).faithful() == old(self).faithful(),
            old(self).faithful() ==> r is Ok && final(self).invocations() == old(self).invocations().insert(
                invocation.invocation_id@,
                invocation.request,
            ) && forall|i: Seq<char>, k: Seq<char>|
                #[trigger] final(self).task_at(i, k) == old(self).task_at(i, k),
            r matches Err(e) ==> e.operation is PutInvocation && e.state_key@ == invocation.invocation_id@,
            final(self).states_failures() == old(self).states_failures(),
            old(self).states_failures() ==> (r is Err <==> old(self).put_invocation_failure(
                invocation.invocation_id@,
            ) is Some),
            old(self).states_failures() ==> (r matches Err(e) ==> Some(e.reason) == old(self).put_invocation_failure(
                invocation.invocation_id@,
            ) && *final(self) == *old(self)),
    ;

    fn get_invocation(&self, invocation_id: &str) -> (r: Result<WorkflowRequest, StateError>)
        ensures
            self.faithful() ==> (r is Ok <==> self.invocations().contains_key(invocation_id@)),
            self.faithful() ==> (r matches Ok(request) ==> cloned(self.invocations()[invocation_id@], request)),
            self.faithful() ==> (r matches Err(e) ==> e.reason is MissingEntry),
            r matches Err(e) ==> e.operation is GetInvocation && e.state_key@ == invocation_id@,
            self.states_failures() ==> (r is Err <==> self.get_invocation_failure(invocation_id@) is Some),
            self.states_failures() ==> (r matches Err(e) ==> Some(e.reason) == self.get_invocation_failure(
                invocation_id@,
            )),
    ;

    fn put_task(&mut self, task: WorkflowTask) -> (r: Result<(), StateError>)
        ensures
            final(self).faithful() == old(self).faithful(),
            old(self).faithful() ==> r is Ok && final(self).invocations() == old(self).invocations()
                && final(self).task_at(task.invocation_id@, task.task_id@) == Some(task) && forall|i: Seq<char>, k: Seq<char>|
                k != task.task_id@ ==> #[trigger] final(self).task_at(i, k) == old(self).task_at(i, k),
            r matches Err(e) ==> e.operation is PutTask && e.state_key@ == task.task_id@,
            final(self).states_failures() == old(self).states_failures(),
            old(self).states_failures() ==> (r is Err <==> old(self).put_task_failure(
                task.invocation_id@,
                task.task_id@,
            ) is Some),
            old(self).states_failures() ==> (r matches Err(e) ==> Some(e.reason) == old(self).put_task_failure(
                task.invocation_id@,
                task.task_id@,
            ) && *final(self) == *old(self)),
    ;

    fn get_task(&self, invocation_id: &str, task_id: &str) -> (r: Result<WorkflowTask, StateError>)
        ensures
            self.faithful() ==> (r is Ok <==> self.task_at(invocation_id@, task_id@) is Some),
            self.faithful() ==> (r matches Ok(task) ==> self.task_at(invocation_id@, task_id@) == Some(task)),
            self.faithful() ==> (r matches Err(e) ==> e.reason is MissingEntry && e.state_key@ == task_id@),
            r matches Err(e) ==> e.operation is GetTask,
            self.states_failures() ==> (r is Err <==> self.get_task_failure(invocation_id@, task_id@) is Some),
            self.states_failures() ==> (r matches Err(e) ==> Some(e.reason) == self.get_task_failure(
                invocation_id@,
                task_id@,
            )),
    ;
}

/// Errors arising from parsing state.
#[derive(Debug)]
pub struct StateError {
    pub state_key: String,
    pub operation: StateOperation,
    pub reason: StateErrorReason,
}

#[derive(Debug)]
pub enum StateErrorReason {
    /// An expected state entry was missing.
    MissingEntry,
    MissingPayload,
    /// The state was not of the expected type.
    BadState(String),
    /// An error from the underlying state store.
    BackendFailure(String),
}

#[derive(Debug, Clone, Copy, PartialEq, Eq, Structural)]
pub enum StateOperation {
    GetInvocation,
    PutInvocation,
    GetTask,
    PutTask,
}

/// The entry a store read, or a `MissingEntry` error of `operation` under
/// `state_key` where the store found none.
pub fn entry_or_missing<I>(entry: Option<I>, state_key: String, operation: StateOperation) -> (r: Result<
    I,
    StateError,
>)
    ensures
        match entry {
            Some(item) => r == Ok::<I, StateError>(item),
            None => r matches Err(e) && e.state_key == state_key && e.operation == operation
                && e.reason is MissingEntry,
        },
{
    match entry {
        Some(item) => Ok(item),
        None => Err(StateError { state_key, operation, reason: StateErrorReason::MissingEntry }),
    }
}

impl StateError {
    pub fn new(state_key: String, operation: StateOperation, reason: StateErrorReason) -> (r: Self)
        ensures
            r.state_key == state_key,
            r.operation == operation,
            r.reason == reason,
    {
        StateError { state_key, operation, reason }
    }
}

} // verus!
