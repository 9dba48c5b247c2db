use vstd::prelude::*;

use crate::model::invocation::{InvocationId, WorkflowInvocation};
use crate::model::task::{completed_task_spec, CompletedTask, WorkflowTask};
use crate::model::{Error, WorkflowError};
use crate::service::{Dispatcher, ServiceError};
use crate::state::StateStore;
use crate::workflow::context::{
    all_requests_ok, completed_payload, delivered, dispatch_outcome, dispatched_into, failed_at, Call, PendingCall,
};
use crate::workflow::runtime::{stores_request, stores_task};

verus! {

/// A read gives back what a write wrote: on a faithful store (the in-memory
/// store is one), `put_invocation` leaves the store faithful with the request
/// stored under its invocation id, so `get_invocation` of that id returns Ok
/// with (a clone of) the request.
pub proof fn law_invocation_read_after_write<T: Clone, S: StateStore<T>>(
    before: S,
    after: S,
    invocation: WorkflowInvocation<T>,
)
    requires
        before.faithful(),
        after.faithful() == before.faithful(),
        after.invocations() == before.invocations().insert(invocation.invocation_id@, invocation.request),
    ensures
        after.faithful(),
        after.invocations().contains_key(invocation.invocation_id@),
        after.invocations()[invocation.invocation_id@] == invocation.request,
{
}

/// A read gives back what a write wrote: once `put_task` succeeded, the task
/// is found under its ids, and tasks of every other task id are untouched.
pub proof fn law_task_read_after_write<T: Clone, S: StateStore<T>>(before: S, after: S, task: WorkflowTask, other_invocation: Seq<char>, other_task: Seq<char>)
    requires
        stores_task(before, after, task),
        other_task != task.task_id@,
    ensures
        after.task_at(task.invocation_id@, task.task_id@) == Some(task),
        after.task_at(other_invocation, other_task) == before.task_at(other_invocation, other_task),
{
}

/// Results are replayed: once an update with a completed task was accepted,
/// a call awaiting that task finds its payload, so `resolve` on an
/// infallible store returns the payload instead of suspending.
pub proof fn law_update_then_resolve_replays<T: Clone, S: StateStore<T>>(
    before: S,
    after: S,
    task: CompletedTask,
    pending: PendingCall,
)
    requires
        stores_task(before, after, completed_task_spec(task)),
        pending.invocation_id@ == task.invocation_id@,
        pending.task_id@ == task.task_id@,
    ensures
        completed_payload(after.task_at(pending.invocation_id@, pending.task_id@)) == Some(task.payload),
{
}

/// A dispatched call stays suspended until its result arrives: every call
/// that a dispatch sent is recorded as started, so awaiting it again does not
/// find a payload.
pub proof fn law_dispatched_call_not_completed<T: Clone, S: StateStore<T>, D>(
    before: S,
    after: S,
    invocation_id: Seq<char>,
    calls: Seq<Call<D>>,
    j: int,
)
    requires
        dispatched_into(before, after, invocation_id, calls),
        0 <= j < calls.len(),
    ensures
        completed_payload(after.task_at(invocation_id, calls[j].task_id@)) is None,
{
    assert(after.task_at(invocation_id, calls[j].task_id@) is Some);
}

/// No call is dispatched twice: a dispatch empties the queue, and a dispatch
/// of an empty queue leaves the store as it was.
pub proof fn law_empty_dispatch_keeps_store<T: Clone, S: StateStore<T>, D>(
    before: S,
    after: S,
    invocation_id: Seq<char>,
)
    requires
        dispatched_into(before, after, invocation_id, Seq::<Call<D>>::empty()),
    ensures
        after.invocations() == before.invocations(),
        forall|i: Seq<char>, k: Seq<char>| #[trigger] after.task_at(i, k) == before.task_at(i, k),
{
    assert forall|i: Seq<char>, k: Seq<char>| #[trigger] after.task_at(i, k) == before.task_at(i, k) by {
        assert(!crate::workflow::context::queues_task(Seq::<Call<D>>::empty(), k));
    }
}

/// An update resumes the request that started the invocation: after a
/// request was accepted and then a task of the same invocation was recorded,
/// the stored request is still (a clone of) the accepted one.
pub proof fn law_update_resumes_request<T: InvocationId + Clone, S: StateStore<T>>(
    initial: S,
    requested: S,
    updated: S,
    request: T,
    task: CompletedTask,
)
    requires
        stores_request(initial, requested, request),
        stores_task(requested, updated, completed_task_spec(task)),
        task.invocation_id@ == request.invocation_id_view(),
    ensures
        updated.invocations().contains_key(request.invocation_id_view()),
        cloned(request, updated.invocations()[request.invocation_id_view()]),
{
}

/// Calls are made before the workflow suspends: after a successful dispatch,
/// every queued call's request was handed to its dispatcher, as the last of
/// its deliveries, and that send succeeded.
pub proof fn law_suspension_follows_sends<T: Clone, S: StateStore<T>, D: Dispatcher>(
    calls: Seq<Call<D>>,
    remaining: Seq<Call<D>>,
    dispatched: Seq<Call<D>>,
    earlier_dispatched: Seq<Call<D>>,
    before: S,
    after: S,
    invocation_id: Seq<char>,
    j: int,
)
    requires
        dispatch_outcome(calls, remaining, dispatched, earlier_dispatched, before, after, invocation_id, Ok(())),
        0 <= j < calls.len(),
        calls[j].dispatcher.records_sends(),
    ensures
        calls[j].request is Ok,
        dispatched[j].dispatcher.deliveries().last() == (calls[j].request->Ok_0, Ok::<(), Error>(())),
        dispatched[j].dispatcher.deliveries().len() == calls[j].dispatcher.deliveries().len() + 1,
{
    assert(crate::workflow::context::delivered(calls[j], dispatched[j], Ok(())));
}

/// A dispatch stops at the first request that could not be serialised: when
/// the calls before it were stored and sent without fault (a faithful store,
/// infallible dispatchers), the dispatch fails with that request's
/// `BadRequest`, the earlier calls were stored as started and sent once, and
/// that call and all after it are left queued as they were.
pub proof fn law_dispatch_stops_at_bad_request<T: Clone, S: StateStore<T>, D: Dispatcher>(
    calls: Seq<Call<D>>,
    remaining: Seq<Call<D>>,
    dispatched: Seq<Call<D>>,
    earlier_dispatched: Seq<Call<D>>,
    before: S,
    after: S,
    invocation_id: Seq<char>,
    r: Result<(), WorkflowError>,
    k: int,
)
    requires
        dispatch_outcome(calls, remaining, dispatched, earlier_dispatched, before, after, invocation_id, r),
        0 <= k < calls.len(),
        calls[k].request is Err,
        forall|j: int| 0 <= j < k ==> (#[trigger] calls[j]).request is Ok,
        before.faithful(),
        forall|j: int| 0 <= j < k ==> (#[trigger] calls[j]).dispatcher.infallible(),
    ensures
        r == Err::<(), WorkflowError>(
            WorkflowError::Error(Error::Service(ServiceError::BadRequest(calls[k].request->Err_0))),
        ),
        forall|j: int| 0 <= j < k ==> delivered(calls[j], #[trigger] remaining[j], Ok(())),
        forall|j: int| k <= j < calls.len() ==> #[trigger] remaining[j] == calls[j],
        dispatched_into(before, after, invocation_id, calls.take(k)),
        dispatched == earlier_dispatched,
{
    assert(!all_requests_ok(calls));
    let stop = choose|stop: int|
        0 <= stop < calls.len() && #[trigger] failed_at(calls, remaining, before, after, invocation_id, r, stop);
    if stop > k {
        assert(delivered(calls[k], remaining[k], Ok(())));
    }
    if stop < k {
        assert(calls[stop].request is Ok);
    }
}

} // verus!
