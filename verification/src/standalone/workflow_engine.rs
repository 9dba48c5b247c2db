use vstd::prelude::*;

use crate::standalone::in_memory_state::InMemoryStateStore;
use crate::standalone::model::{CallResult, CallState, WorkflowError, WorkflowEvent, WorkflowId};
use crate::standalone::service::AsyncService;
use crate::standalone::state::StateStore;

verus! {

/// Accepts workflow events against its state store.
pub struct WorkflowEngine<S> {
    pub state_store: S,
}

/// The context of one workflow: its request.
pub struct WorkflowContext<T> {
    request: T,
}

/// The message of the error for a workflow id without a stored request.
pub open spec fn missing_workflow_message(workflow_id: Seq<char>) -> Seq<char> {
    "Failed to get workflow id "@ + workflow_id
}

/// The store after accepting a request: a clone of the request is stored
/// under its workflow id, and nothing else changed.
pub open spec fn stores_request<T: WorkflowId + Clone, S: StateStore<T>>(before: S, after: S, request: T) -> bool {
    let id = request.workflow_id_view();
    &&& after.infallible() == before.infallible()
    &&& after.calls() == before.calls()
    &&& after.invocations().contains_key(id)
    &&& cloned(request, after.invocations()[id])
    &&& after.invocations() == before.invocations().insert(id, after.invocations()[id])
}

/// What accepting a request does: a clone of it is stored under its workflow
/// id and it becomes the context's request, or the store's error is returned
/// and nothing changes.
pub open spec fn create_outcome<T: WorkflowId + Clone, S: StateStore<T>>(
    before: S,
    after: S,
    request: T,
    r: Result<WorkflowContext<T>, String>,
) -> bool {
    let written = before.put_invocation_outcome(request.workflow_id_view());
    &&& written is Err ==> r == Err::<WorkflowContext<T>, String>(written->Err_0) && after == before
    &&& written is Ok ==> r is Ok
    &&& r matches Ok(ctx) ==> ctx.spec_request() == request && stores_request(before, after, request)
}

/// What accepting a call result does: for a stored workflow, the call is
/// completed with the result, or the store's error is returned; for an
/// unknown workflow, nothing changes and the error names the workflow id.
pub open spec fn update_outcome<T: Clone, S: StateStore<T>>(
    before: S,
    after: S,
    result: CallResult,
    r: Result<WorkflowContext<T>, String>,
) -> bool {
    let id = result.workflow_id@;
    let stored = before.invocations();
    let written = before.put_call_outcome(result.call_id@);
    &&& after.infallible() == before.infallible()
    &&& !stored.contains_key(id) ==> (r matches Err(message) && message@ == missing_workflow_message(id)
        && after == before)
    &&& stored.contains_key(id) && written is Err ==> r == Err::<WorkflowContext<T>, String>(written->Err_0)
        && after == before
    &&& stored.contains_key(id) && written is Ok ==> r is Ok
    &&& r matches Ok(ctx) ==> stored.contains_key(id) && cloned(stored[id], ctx.spec_request())
        && after.invocations() == stored && after.calls() == before.calls().insert(
        result.call_id@,
        CallState::Completed(result),
    )
}

/// What a call of a service answers: suspension once the call is made, or the
/// service's error.
pub open spec fn service_answer(called: Result<(), String>) -> Result<String, WorkflowError> {
    match called {
        Ok(()) => Err(WorkflowError::Suspended),
        Err(m) => Err(WorkflowError::Error(m)),
    }
}

/// Results are replayed: once a call result was accepted for a stored
/// workflow, the call is completed with that result, so calling it again
/// returns the result's value without calling the service.
pub proof fn law_update_then_call_replays<T: Clone, S: StateStore<T>>(
    before: S,
    after: S,
    result: CallResult,
    r: Result<WorkflowContext<T>, String>,
)
    requires
        update_outcome(before, after, result, r),
        r is Ok,
    ensures
        after.calls().contains_key(result.call_id@),
        after.calls()[result.call_id@] == CallState::Completed(result),
{
}

impl<T: Clone> WorkflowEngine<InMemoryStateStore<T>> {
    /// An engine over an empty in-memory store.
    pub fn new() -> (r: WorkflowEngine<InMemoryStateStore<T>>)
        ensures
            r.state_store.invocations() == Map::<Seq<char>, T>::empty(),
            r.state_store.calls() == Map::<Seq<char>, CallState>::empty(),
    {
        WorkflowEngine { state_store: InMemoryStateStore::default() }
    }
}

impl<S> WorkflowEngine<S> {
    /// A request is stored under its workflow id; a call result resumes the
    /// stored request and records the call as completed.
    pub fn accept<T: WorkflowId + Clone>(&mut self, event: WorkflowEvent<T>) -> (r: Result<WorkflowContext<T>, String>) where
        S: StateStore<T>,

        ensures
            match event {
                WorkflowEvent::Request(request) => create_outcome(
                    old(self).state_store,
                    final(self).state_store,
                    request,
                    r,
                ),
                WorkflowEvent::Update(result) => update_outcome(
                    old(self).state_store,
                    final(self).state_store,
                    result,
                    r,
                ),
            },
    {
        match event {
            WorkflowEvent::Request(request) => self.create_ctx(request),
            WorkflowEvent::Update(state) => self.update_ctx(state),
        }
    }

    fn create_ctx<T: WorkflowId + Clone>(&mut self, request: T) -> (r: Result<WorkflowContext<T>, String>) where
        S: StateStore<T>,

        ensures
            create_outcome(old(self).state_store, final(self).state_store, request, r),
    {
        let copy = request.clone();
        self.state_store.put_invocation(request.workflow_id(), copy)?;
        Ok(WorkflowContext::new(request))
    }

    fn update_ctx<T: WorkflowId + Clone>(&mut self, call_result: CallResult) -> (r: Result<WorkflowContext<T>, String>) where
        S: StateStore<T>,

        ensures
            update_outcome(old(self).state_store, final(self).state_store, call_result, r),
    {
        let workflow_id = call_result.workflow_id.as_str();
        let call_id = call_result.call_id.clone();
        let request = match self.state_store.get_invocation(workflow_id) {
            Some(request) => request,
            None => {
                return Err("Failed to get workflow id ".to_owned().concat(workflow_id));
            },
        };
        // Update the state with any calls
        self.state_store.put_call(call_id.as_str(), CallState::Completed(call_result))?;
        Ok(WorkflowContext::new(request))
    }
}

impl<T> WorkflowContext<T> {
    /// The workflow's request.
    pub closed spec fn spec_request(&self) -> T {
        self.request
    }

    pub fn new(request: T) -> (r: Self)
        ensures
            r.spec_request() == request,
    {
        WorkflowContext { request }
    }

    pub fn get_request(&self) -> (r: &T)
        ensures
            *r == self.spec_request(),
    {
        &self.request
    }

    /// Call a service which won't respond immediately. A completed call
    /// returns its value and a running one suspends; an unknown call is
    /// recorded as running, made through `service`, and the workflow suspends.
    pub fn call<S: StateStore<T>, A: AsyncService<String>>(&self, store: &mut S, service: &mut A, call_id: &str) -> (r: Result<
        String,
        WorkflowError,
    >) where T: Clone
        ensures
            final(store).infallible() == old(store).infallible(),
            final(service).infallible() == old(service).infallible(),
            final(service).records_calls() == old(service).records_calls(),
            old(store).calls().contains_key(call_id@) ==> *final(store) == *old(store) && *final(service) == *old(
                service,
            ) && r == match old(store).calls()[call_id@] {
                CallState::Running => Err(WorkflowError::Suspended),
                CallState::Completed(result) => Ok::<String, WorkflowError>(result.value),
            },
            !old(store).calls().contains_key(call_id@) && old(store).put_call_outcome(call_id@) is Err ==> r
                == Err::<String, WorkflowError>(WorkflowError::Error(old(store).put_call_outcome(call_id@)->Err_0))
                && *final(store) == *old(store) && *final(service) == *old(service),
            !old(store).calls().contains_key(call_id@) && old(store).put_call_outcome(call_id@) is Ok ==> {
                &&& final(store).calls() == old(store).calls().insert(call_id@, CallState::Running)
                &&& final(store).invocations() == old(store).invocations()
                &&& r is Err
                &&& old(service).infallible() ==> (r matches Err(WorkflowError::Suspended))
                &&& old(service).records_calls() ==> {
                    let got = final(service).received();
                    &&& got.len() == old(service).received().len() + 1
                    &&& got.take(old(service).received().len() as int) == old(service).received()
                    &&& got.last().0@ == call_id@
                    &&& r == service_answer(got.last().1)
                    &&& got.last().1 is Ok ==> r == Err::<String, WorkflowError>(WorkflowError::Suspended)
                    &&& got.last().1 matches Err(m) ==> r == Err::<String, WorkflowError>(WorkflowError::Error(m))
                }
            },
    {
        // Check if the result is already available in state
        if let Some(state) = store.get_call(call_id) {
            return match state {
                // Suspend if it's not available
                CallState::Running => Err(WorkflowError::Suspended),
                // Return the completed result
                CallState::Completed(result) => Ok(result.value.clone()),
            };
        }
        // Set the state running and then call the service
        match store.put_call(call_id, CallState::Running) {
            Ok(()) => {},
            Err(e) => {
                return Err(WorkflowError::Error(e));
            },
        }
        let called = service.call(call_id.to_owned());
        proof {
            if old(service).records_calls() {
                assert(service.received().take(old(service).received().len() as int) =~= old(service).received());
            }
        }
        match called {
            Ok(()) => {},
            Err(e) => {
                return Err(WorkflowError::Error(e));
            },
        }
        Err(WorkflowError::Suspended)
    }
}

/// A call that was made answers with what the service returned: the workflow
/// suspends once the call succeeded, and the service's error is returned as
/// the call's error, unchanged.
pub proof fn law_call_answers_with_its_service(called: Result<(), String>, r: Result<String, WorkflowError>)
    requires
        r == service_answer(called),
    ensures
        called is Ok ==> r == Err::<String, WorkflowError>(WorkflowError::Suspended),
        forall|m: String| called == Err::<(), String>(m) ==> r == Err::<String, WorkflowError>(WorkflowError::Error(m)),
{
}

} // verus!
