use vstd::prelude::*;

use crate::model::invocation::{InvocationId, WorkflowInvocation};
use crate::model::task::{completed_task_spec, WorkflowTask};
use crate::model::{Error, WorkflowEvent};
use crate::service::Dispatcher;
use crate::state::StateStore;
use crate::workflow::context::{Call, WorkflowContext};

verus! {

/// Accepts the events that drive workflows and hands out their contexts.
pub struct WorkflowRuntime<S> {
    pub state_store: S,
    /// How a service re-invokes this workflow.
    pub input_queue_url: String,
}

/// The store after accepting a new request: the request (a clone of it) is
/// stored under its invocation id, and nothing else changed.
pub open spec fn stores_request<T: InvocationId + Clone, S: StateStore<T>>(before: S, after: S, request: T) -> bool {
    let id = request.invocation_id_view();
    &&& after.faithful() == before.faithful()
    &&& after.invocations().contains_key(id)
    &&& cloned(request, after.invocations()[id])
    &&& after.invocations() == before.invocations().insert(id, after.invocations()[id])
    &&& forall|i: Seq<char>, k: Seq<char>| #[trigger] after.task_at(i, k) == before.task_at(i, k)
}

/// The store after recording a task: it is found under its ids, tasks of other
/// task ids and the invocations are as they were.
pub open spec fn stores_task<T: Clone, S: StateStore<T>>(before: S, after: S, task: WorkflowTask) -> bool {
    &&& after.faithful() == before.faithful()
    &&& after.invocations() == before.invocations()
    &&& after.task_at(task.invocation_id@, task.task_id@) == Some(task)
    &&& forall|i: Seq<char>, k: Seq<char>|
        k != task.task_id@ ==> #[trigger] after.task_at(i, k) == before.task_at(i, k)
}

impl<S> WorkflowRuntime<S> {
    /// Create a new `WorkflowRuntime` supplying all arguments.
    pub fn new(state_store: S, input_queue_url: String) -> (r: Self)
        ensures
            r.state_store == state_store,
            r.input_queue_url == input_queue_url,
    {
        WorkflowRuntime { state_store, input_queue_url }
    }

    /// A new request is stored as an invocation and starts a context for it.
    /// An update stores the completed task and resumes the stored invocation.
    pub fn accept<T: InvocationId + Clone, D: Dispatcher>(&mut self, event: WorkflowEvent<T>) -> (r: Result<
        WorkflowContext<T, D>,
        Error,
    >) where S: StateStore<T>
        ensures
            r matches Ok(ctx) ==> ctx.callback_queue() == old(self).input_queue_url && ctx.queued() == Seq::<
                Call<D>,
            >::empty(),
            final(self).input_queue_url == old(self).input_queue_url,
            match event {
                WorkflowEvent::Request(request) => {
                    &&& r matches Ok(ctx) ==> ctx.spec_request() == request
                    &&& old(self).state_store.faithful() ==> r is Ok && stores_request(
                        old(self).state_store,
                        final(self).state_store,
                        request,
                    )
                    &&& r matches Err(e) ==> e matches Error::State(se) && se.operation is PutInvocation
                        && se.state_key@ == request.invocation_id_view()
                    &&& old(self).state_store.states_failures() ==> {
                        let failure = old(self).state_store.put_invocation_failure(request.invocation_id_view());
                        &&& r is Ok <==> failure is None
                        &&& r matches Err(Error::State(se)) ==> Some(se.reason) == failure
                    }
                },
                WorkflowEvent::Update(task) => {
                    let id = task.invocation_id@;
                    let stored = old(self).state_store.invocations();
                    &&& old(self).state_store.faithful() ==> {
                        &&& r is Ok <==> stored.contains_key(id)
                        &&& stores_task(old(self).state_store, final(self).state_store, completed_task_spec(task))
                        &&& r matches Ok(ctx) ==> cloned(stored[id], ctx.spec_request())
                        &&& !stored.contains_key(id) ==> (r matches Err(Error::State(se)) && se.operation is GetInvocation
                            && se.reason is MissingEntry)
                    }
                    &&& !stored.contains_key(id) && old(self).state_store.faithful() ==> (r matches Err(
                        Error::State(se),
                    ) && se.state_key@ == id)
                    &&& r matches Err(e) ==> e matches Error::State(se) && ((se.operation is PutTask
                        && se.state_key@ == task.task_id@) || (se.operation is GetInvocation && se.state_key@ == id))
                    &&& old(self).state_store.states_failures() ==> {
                        let put_failure = old(self).state_store.put_task_failure(id, task.task_id@);
                        let get_failure = final(self).state_store.get_invocation_failure(id);
                        &&& final(self).state_store.states_failures()
                        &&& put_failure is Some ==> final(self).state_store == old(self).state_store && (r matches Err(
                            Error::State(se),
                        ) && se.operation is PutTask && Some(se.reason) == put_failure)
                        &&& put_failure is None ==> (r is Ok <==> get_failure is None)
                        &&& put_failure is None ==> (r matches Err(Error::State(se)) ==> se.operation is GetInvocation
                            && Some(se.reason) == get_failure)
                    }
                },
            },
    {
        let request = match event {
            WorkflowEvent::Request(request) => {
                // Create a new invocation record
                let invocation = WorkflowInvocation {
                    invocation_id: request.invocation_id().to_owned(),
                    request: request.clone(),
                };
                match self.state_store.put_invocation(invocation) {
                    Ok(()) => {},
                    Err(e) => {
                        return Err(Error::State(e));
                    },
                }
                request
            },
            WorkflowEvent::Update(task) => {
                let invocation_id = task.invocation_id.clone();
                // Update the state with any calls
                match self.state_store.put_task(WorkflowTask::from(task)) {
                    Ok(()) => {},
                    Err(e) => {
                        return Err(Error::State(e));
                    },
                }
                match self.state_store.get_invocation(invocation_id.as_str()) {
                    Ok(request) => request,
                    Err(e) => {
                        return Err(Error::State(e));
                    },
                }
            },
        };
        Ok(WorkflowContext::new(request, self.input_queue_url.clone()))
    }
}

} // verus!
