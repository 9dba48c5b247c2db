use vstd::prelude::*;

use crate::model::invocation::{InvocationId, WorkflowInvocation};
use crate::model::task::{completed_task_spec, CompletedTask, WorkflowTask, WorkflowTaskState};
use crate::model::{Error, WorkflowError, WorkflowEvent};
use crate::service::Dispatcher;
use crate::state::StateStore;
use crate::workflow::context::is_started;
use crate::workflow::runtime::{stores_request, stores_task};

verus! {

/// A workflow engine that owns its state store and the client with which
/// its contexts reach services.
pub struct WorkflowEngine<S, C> {
    pub state_store: S,
    pub sqs_client: C,
}

/// The context of one workflow invocation: its request and the client.
pub struct WorkflowContext<T, C> {
    request: T,
    sqs_client: C,
}

/// What accepting a new request does: the request is stored (on a faithful
/// store) and becomes the context's request.
pub open spec fn create_outcome<T: InvocationId + Clone, S: StateStore<T>, C>(
    before: S,
    after: S,
    request: T,
    r: Result<WorkflowContext<T, C>, Error>,
) -> bool {
    &&& r matches Ok(ctx) ==> ctx.spec_request() == request
    &&& before.faithful() ==> r is Ok && stores_request(before, after, request)
    &&& r matches Err(e) ==> e matches Error::State(se) && se.operation is PutInvocation
        && se.state_key@ == request.invocation_id_view()
    &&& before.states_failures() ==> {
        let failure = before.put_invocation_failure(request.invocation_id_view());
        &&& r is Ok <==> failure is None
        &&& r matches Err(Error::State(se)) ==> Some(se.reason) == failure
    }
}

/// What accepting a completed task does: the stored request is resumed, and
/// only then is the task recorded, so an unknown invocation stores nothing.
pub open spec fn update_outcome<T: InvocationId + Clone, S: StateStore<T>, C>(
    before: S,
    after: S,
    task: CompletedTask,
    r: Result<WorkflowContext<T, C>, Error>,
) -> bool {
    let id = task.invocation_id@;
    let stored = before.invocations();
    &&& before.faithful() ==> {
        &&& r is Ok <==> stored.contains_key(id)
        &&& r matches Ok(ctx) ==> cloned(stored[id], ctx.spec_request()) && stores_task(
            before,
            after,
            completed_task_spec(task),
        )
        &&& !stored.contains_key(id) ==> (r matches Err(Error::State(se)) && se.operation is GetInvocation
            && se.reason is MissingEntry && after == before)
    }
    &&& r matches Err(e) ==> e matches Error::State(se) && ((se.operation is PutTask && se.state_key@ == task.task_id@)
        || (se.operation is GetInvocation && se.state_key@ == id))
    &&& before.states_failures() ==> {
        let get_failure = before.get_invocation_failure(id);
        let put_failure = before.put_task_failure(id, task.task_id@);
        &&& get_failure is Some ==> after == before && (r matches Err(Error::State(se))
            && se.operation is GetInvocation && Some(se.reason) == get_failure)
        &&& get_failure is None ==> (r is Ok <==> put_failure is None)
        &&& get_failure is None ==> (r matches Err(Error::State(se)) ==> se.operation is PutTask
            && Some(se.reason) == put_failure)
    }
}

/// What a send answers a call with: suspension once the request is sent, or
/// the send's error.
pub open spec fn send_answer(sent: Result<(), Error>) -> Result<String, WorkflowError> {
    match sent {
        Ok(()) => Err(WorkflowError::Suspended),
        Err(e) => Err(WorkflowError::Error(e)),
    }
}

/// `after` is the delivery log `before` with `body` handed over once more, and
/// the call answered `r` as that send's outcome says.
pub open spec fn sent_once(
    before: Seq<(String, Result<(), Error>)>,
    after: Seq<(String, Result<(), Error>)>,
    body: String,
    r: Result<String, WorkflowError>,
) -> bool {
    &&& after.len() == before.len() + 1
    &&& after.take(before.len() as int) == before
    &&& after.last().0 == body
    &&& r == send_answer(after.last().1)
}

impl<S, C: Clone> WorkflowEngine<S, C> {
    pub fn new(state_store: S, sqs_client: C) -> (r: WorkflowEngine<S, C>)
        ensures
            r.state_store == state_store,
            r.sqs_client == sqs_client,
    {
        WorkflowEngine { state_store, sqs_client }
    }

    /// A new request is stored as an invocation; an update resumes the stored
    /// invocation and then records the completed task.
    pub fn accept<T: InvocationId + Clone>(&mut self, event: WorkflowEvent<T>) -> (r: Result<
        WorkflowContext<T, C>,
        Error,
    >) where S: StateStore<T>
        ensures
            final(self).sqs_client == old(self).sqs_client,
            r matches Ok(ctx) ==> cloned(old(self).sqs_client, ctx.spec_sqs_client()),
            match event {
                WorkflowEvent::Request(request) => create_outcome(
                    old(self).state_store,
                    final(self).state_store,
                    request,
                    r,
                ),
                WorkflowEvent::Update(task) => update_outcome(
                    old(self).state_store,
                    final(self).state_store,
                    task,
                    r,
                ),
            },
    {
        match event {
            WorkflowEvent::Request(request) => self.create_ctx(request),
            WorkflowEvent::Update(state) => self.update_ctx(state),
        }
    }

    fn create_ctx<T: InvocationId + Clone>(&mut self, request: T) -> (r: Result<WorkflowContext<T, C>, Error>) where
        S: StateStore<T>,

        ensures
            final(self).sqs_client == old(self).sqs_client,
            r matches Ok(ctx) ==> cloned(old(self).sqs_client, ctx.spec_sqs_client()),
            create_outcome(old(self).state_store, final(self).state_store, request, r),
    {
        let invocation = WorkflowInvocation {
            invocation_id: request.invocation_id().to_owned(),
            request: request.clone(),
        };
        match self.state_store.put_invocation(invocation) {
            Ok(()) => {},
            Err(e) => {
                return Err(Error::State(e));
            },
        }
        Ok(WorkflowContext::new(request, self.sqs_client.clone()))
    }

    fn update_ctx<T: InvocationId + Clone>(&mut self, call_result: CompletedTask) -> (r: Result<
        WorkflowContext<T, C>,
        Error,
    >) where S: StateStore<T>
        ensures
            final(self).sqs_client == old(self).sqs_client,
            r matches Ok(ctx) ==> cloned(old(self).sqs_client, ctx.spec_sqs_client()),
            update_outcome(old(self).state_store, final(self).state_store, call_result, r),
    {
        let invocation_id = call_result.invocation_id.clone();
        let request = match self.state_store.get_invocation(invocation_id.as_str()) {
            Ok(request) => request,
            Err(e) => {
                return Err(Error::State(e));
            },
        };
        // Update the state with any calls
        match self.state_store.put_task(WorkflowTask::from(call_result)) {
            Ok(()) => {},
            Err(e) => {
                return Err(Error::State(e));
            },
        }
        Ok(WorkflowContext::new(request, self.sqs_client.clone()))
    }
}

impl<T: InvocationId, C> WorkflowContext<T, C> {
    /// The invocation's request.
    pub closed spec fn spec_request(&self) -> T {
        self.request
    }

    /// The client held by the context.
    pub closed spec fn spec_sqs_client(&self) -> C {
        self.sqs_client
    }

    pub fn new(request: T, sqs_client: C) -> (r: Self)
        ensures
            r.spec_request() == request,
            r.spec_sqs_client() == sqs_client,
    {
        WorkflowContext { request, sqs_client }
    }

    pub fn request(&self) -> (r: &T)
        ensures
            *r == self.spec_request(),
    {
        &self.request
    }

    pub fn sqs_client(&self) -> (r: &C)
        ensures
            *r == self.spec_sqs_client(),
    {
        &self.sqs_client
    }

    /// Call an async service which won't return immediately.
    /// A completed task returns its payload and a started one suspends; an
    /// unknown task is stored as started, `body` is sent through `service`,
    /// and the workflow suspends.
    pub fn call<S: StateStore<R>, R: Clone, D: Dispatcher>(
        &self,
        store: &mut S,
        service: &mut D,
        task_id: &str,
        body: String,
    ) -> (r: Result<String, WorkflowError>)
        ensures
            ({
                let invocation_id = self.spec_request().invocation_id_view();
                let faithful = old(store).faithful();
                let entry = old(store).task_at(invocation_id, task_id@);
                &&& final(store).faithful() == faithful
                &&& final(service).infallible() == old(service).infallible()
                &&& final(service).records_sends() == old(service).records_sends()
                &&& r is Ok ==> *final(store) == *old(store) && *final(service) == *old(service)
                &&& faithful && entry is Some ==> *final(store) == *old(store) && *final(service) == *old(service)
                    && r == match entry->0.state {
                    WorkflowTaskState::Completed(p) => Ok::<String, WorkflowError>(p),
                    WorkflowTaskState::Started => Err(WorkflowError::Suspended),
                }
                &&& faithful && entry is None ==> r is Err && is_started(
                    final(store).task_at(invocation_id, task_id@),
                    invocation_id,
                    task_id@,
                ) && final(store).invocations() == old(store).invocations() && forall|i: Seq<char>, k: Seq<char>|
                    k != task_id@ ==> #[trigger] final(store).task_at(i, k) == old(store).task_at(i, k)
                &&& faithful && entry is None && old(service).records_sends() ==> sent_once(
                    old(service).deliveries(),
                    final(service).deliveries(),
                    body,
                    r,
                )
                &&& old(service).records_sends() ==> (final(service).deliveries() == old(service).deliveries()
                    || sent_once(old(service).deliveries(), final(service).deliveries(), body, r))
                &&& old(service).records_sends() && final(service).deliveries() != old(service).deliveries() ==> {
                    let sent = final(service).deliveries().last().1;
                    &&& final(service).deliveries().last().0 == body
                    &&& sent is Ok ==> r == Err::<String, WorkflowError>(WorkflowError::Suspended)
                    &&& sent matches Err(e) ==> r == Err::<String, WorkflowError>(WorkflowError::Error(e))
                }
                &&& faithful && entry is None && old(service).infallible() ==> (r matches Err(
                    WorkflowError::Suspended,
                ))
                &&& old(store).states_failures() && old(store).get_task_failure(invocation_id, task_id@) is Some
                    && old(store).put_task_failure(invocation_id, task_id@) is Some ==> {
                    &&& *final(store) == *old(store)
                    &&& *final(service) == *old(service)
                    &&& r matches Err(WorkflowError::Error(Error::State(se)))
                    &&& se.operation is PutTask
                    &&& se.state_key@ == task_id@
                    &&& Some(se.reason) == old(store).put_task_failure(invocation_id, task_id@)
                }
            }),
    {
        let invocation_id = self.request.invocation_id();
        // Check if the result is already available in state
        if let Ok(state) = store.get_task(invocation_id, task_id) {
            return match state.state {
                // Suspend if it's not available
                WorkflowTaskState::Started => Err(WorkflowError::Suspended),
                // Return the completed result
                WorkflowTaskState::Completed(payload) => Ok(payload),
            };
        }
        let running_task = WorkflowTask {
            invocation_id: invocation_id.to_owned(),
            task_id: task_id.to_owned(),
            state: WorkflowTaskState::Started,
        };
        // Set the state running and then call the service
        match store.put_task(running_task) {
            Ok(()) => {},
            Err(e) => {
                return Err(WorkflowError::Error(Error::State(e)));
            },
        }
        let sent = service.send_message(body);
        proof {
            if old(service).records_sends() {
                assert(service.deliveries().take(old(service).deliveries().len() as int) =~= old(service).deliveries());
            }
        }
        match sent {
            Ok(()) => {},
            Err(e) => {
                return Err(WorkflowError::Error(e));
            },
        }
        Err(WorkflowError::Suspended)
    }
}

/// A call that sent its request answers with what the send returned: the
/// workflow suspends once the request was sent, and a failed send is returned
/// as the call's error, unchanged; the request sent is the call's body.
pub proof fn law_call_answers_with_its_send(
    before: Seq<(String, Result<(), Error>)>,
    after: Seq<(String, Result<(), Error>)>,
    body: String,
    r: Result<String, WorkflowError>,
)
    requires
        sent_once(before, after, body, r),
    ensures
        after.len() == before.len() + 1,
        after.last().0 == body,
        after.last().1 is Ok ==> r == Err::<String, WorkflowError>(WorkflowError::Suspended),
        forall|e: Error| after.last().1 == Err::<(), Error>(e) ==> r == Err::<String, WorkflowError>(WorkflowError::Error(e)),
{
}

} // verus!
