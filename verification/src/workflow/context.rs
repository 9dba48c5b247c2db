use vstd::prelude::*;

use crate::model::invocation::InvocationId;
use crate::model::task::{TaskId, WorkflowTask, WorkflowTaskState};
use crate::model::{Error, WorkflowError};
use crate::service::{Dispatcher, Service, ServiceError, ServiceRequest};
use crate::state::StateStore;

verus! {

/// A service call queued by a workflow and not yet dispatched.
pub struct Call<D> {
    pub task_id: String,
    /// The serialised service request, or why it could not be serialised.
    pub request: Result<String, String>,
    pub dispatcher: D,
}

/// What a workflow awaits after queueing a call: the ids of the task whose
/// result it waits for.
pub struct PendingCall {
    pub invocation_id: String,
    pub task_id: String,
}

/// The context handed to a workflow: its request, the queue on which services
/// call back, and the service calls queued since the last dispatch. The calls
/// of the last successful dispatch are kept, as they were after their sends,
/// in `last_dispatch`.
pub struct WorkflowContext<T, D> {
    request: T,
    callback_queue_url: String,
    calls: Vec<Call<D>>,
    last_dispatch: Ghost<Seq<Call<D>>>,
}

/// The payload of a task, if it is completed.
pub open spec fn completed_payload(task: Option<WorkflowTask>) -> Option<String> {
    match task {
        Some(t) => match t.state {
            WorkflowTaskState::Completed(payload) => Some(payload),
            WorkflowTaskState::Started => None,
        },
        None => None,
    }
}

/// `task` is a started task of the given invocation with the given task id.
pub open spec fn is_started(task: Option<WorkflowTask>, invocation_id: Seq<char>, task_id: Seq<char>) -> bool {
    &&& task is Some
    &&& task->0.invocation_id@ == invocation_id
    &&& task->0.task_id@ == task_id
    &&& task->0.state is Started
}

/// Whether some queued call holds the task id `k`.
pub open spec fn queues_task<D>(calls: Seq<Call<D>>, k: Seq<char>) -> bool {
    exists|j: int| 0 <= j < calls.len() && (#[trigger] calls[j]).task_id@ == k
}

/// Whether every queued call holds a serialised request.
pub open spec fn all_requests_ok<D>(calls: Seq<Call<D>>) -> bool {
    forall|j: int| 0 <= j < calls.len() ==> (#[trigger] calls[j]).request is Ok
}

/// Whether every queued call's dispatcher sends every message.
pub open spec fn all_dispatchers_infallible<D: Dispatcher>(calls: Seq<Call<D>>) -> bool {
    forall|j: int| 0 <= j < calls.len() ==> (#[trigger] calls[j]).dispatcher.infallible()
}

/// What a successful dispatch leaves in the store: every queued call's task
/// is started, tasks of other ids and the invocations are as they were.
pub open spec fn dispatched_into<T: Clone, S: StateStore<T>, D>(
    before: S,
    after: S,
    invocation_id: Seq<char>,
    calls: Seq<Call<D>>,
) -> bool {
    &&& after.faithful() == before.faithful()
    &&& after.invocations() == before.invocations()
    &&& forall|j: int|
        0 <= j < calls.len() ==> is_started(
            after.task_at(invocation_id, (#[trigger] calls[j]).task_id@),
            invocation_id,
            calls[j].task_id@,
        )
    &&& forall|i: Seq<char>, k: Seq<char>|
        !queues_task(calls, k) ==> #[trigger] after.task_at(i, k) == before.task_at(i, k)
}

/// `after` is the call `before` once its request was handed to its
/// dispatcher and the send returned `result`.
pub open spec fn delivered<D: Dispatcher>(before: Call<D>, after: Call<D>, result: Result<(), Error>) -> bool {
    &&& before.request is Ok
    &&& after.task_id == before.task_id
    &&& after.request == before.request
    &&& after.dispatcher.infallible() == before.dispatcher.infallible()
    &&& after.dispatcher.records_sends() == before.dispatcher.records_sends()
    &&& before.dispatcher.records_sends() ==> after.dispatcher.deliveries() == before.dispatcher.deliveries().push(
        (before.request->Ok_0, result),
    )
}

/// A dispatch of `calls` stopped at call `k`: every earlier call's task was
/// stored and its request sent, later calls were left alone, and call `k`
/// failed on its request, on storing its task (with the store's own reason,
/// where the store states its failures), or on its send (never where its
/// dispatcher is infallible).
pub open spec fn failed_at<T: Clone, S: StateStore<T>, D: Dispatcher>(
    calls: Seq<Call<D>>,
    remaining: Seq<Call<D>>,
    before: S,
    after: S,
    invocation_id: Seq<char>,
    r: Result<(), WorkflowError>,
    k: int,
) -> bool {
    &&& forall|j: int| 0 <= j < k ==> delivered(calls[j], #[trigger] remaining[j], Ok(()))
    &&& forall|j: int| k < j < calls.len() ==> #[trigger] remaining[j] == calls[j]
    &&& match calls[k].request {
        Err(reason) => {
            &&& r == Err::<(), WorkflowError>(WorkflowError::Error(Error::Service(ServiceError::BadRequest(reason))))
            &&& remaining[k] == calls[k]
            &&& before.faithful() ==> dispatched_into(before, after, invocation_id, calls.take(k))
        },
        Ok(_) => {
            ||| {
                &&& !before.faithful()
                &&& r is Err && r->Err_0 is Error && r->Err_0->Error_0 is State
                &&& r->Err_0->Error_0->State_0.operation is PutTask
                &&& r->Err_0->Error_0->State_0.state_key@ == calls[k].task_id@
                &&& after.states_failures() ==> Some(r->Err_0->Error_0->State_0.reason) == after.put_task_failure(
                    invocation_id,
                    calls[k].task_id@,
                )
                &&& remaining[k] == calls[k]
            }
            ||| {
                &&& r is Err && r->Err_0 is Error
                &&& !calls[k].dispatcher.infallible()
                &&& delivered(calls[k], remaining[k], Err(r->Err_0->Error_0))
                &&& before.faithful() ==> dispatched_into(before, after, invocation_id, calls.take(k + 1))
            }
        },
    }
}

/// What dispatching the queued `calls` does. On success every call's task was
/// stored as started and then its request was sent once, in queue order, each
/// send succeeding; the queue is emptied and the sent calls become the last
/// dispatch. On failure the queue keeps its calls and the error is that of
/// the call at which the dispatch stopped. An empty queue changes nothing.
pub open spec fn dispatch_outcome<T: Clone, S: StateStore<T>, D: Dispatcher>(
    calls: Seq<Call<D>>,
    remaining: Seq<Call<D>>,
    dispatched: Seq<Call<D>>,
    earlier_dispatched: Seq<Call<D>>,
    before: S,
    after: S,
    invocation_id: Seq<char>,
    r: Result<(), WorkflowError>,
) -> bool {
    &&& after.faithful() == before.faithful()
    &&& calls.len() == 0 ==> r is Ok && after == before
    &&& r is Ok ==> {
        &&& remaining.len() == 0
        &&& all_requests_ok(calls)
        &&& dispatched.len() == calls.len()
        &&& forall|j: int| 0 <= j < calls.len() ==> delivered(calls[j], #[trigger] dispatched[j], Ok(()))
        &&& before.faithful() ==> dispatched_into(before, after, invocation_id, calls)
    }
    &&& r is Err ==> {
        &&& dispatched == earlier_dispatched
        &&& remaining.len() == calls.len()
        &&& exists|k: int|
            0 <= k < calls.len() && #[trigger] failed_at(calls, remaining, before, after, invocation_id, r, k)
    }
}

/// The value an awaited call returns once its stored payload was parsed: the
/// parsed response, or a `BadResponse` error with the parser's message.
pub fn decoded_response<R>(parsed: Result<R, String>) -> (r: Result<R, WorkflowError>)
    ensures
        match parsed {
            Ok(response) => r == Ok::<R, WorkflowError>(response),
            Err(message) => r == Err::<R, WorkflowError>(
                WorkflowError::Error(Error::Service(ServiceError::BadResponse(message))),
            ),
        },
{
    match parsed {
        Ok(response) => Ok(response),
        Err(message) => Err(WorkflowError::Error(Error::Service(ServiceError::BadResponse(message)))),
    }
}

/// The dispatch result that an awaited call's result stands for: suspending
/// means the dispatch succeeded.
pub open spec fn dispatch_result(r: Result<String, WorkflowError>) -> Result<(), WorkflowError> {
    match r {
        Err(WorkflowError::Suspended) => Ok(()),
        Err(e) => Err(e),
        Ok(_) => Ok(()),
    }
}

impl<T: InvocationId + Clone, D: Dispatcher> WorkflowContext<T, D> {
    /// The workflow's request.
    pub closed spec fn spec_request(&self) -> T {
        self.request
    }

    /// The queue on which services call back.
    pub closed spec fn callback_queue(&self) -> String {
        self.callback_queue_url
    }

    /// The calls queued and not yet dispatched, oldest first.
    pub closed spec fn queued(&self) -> Seq<Call<D>> {
        self.calls@
    }

    /// The calls of the last successful dispatch, as they were after their
    /// sends, oldest first.
    pub closed spec fn dispatched(&self) -> Seq<Call<D>> {
        self.last_dispatch@
    }

    pub fn new(request: T, callback_queue_url: String) -> (r: Self)
        ensures
            r.spec_request() == request,
            r.callback_queue() == callback_queue_url,
            r.queued() == Seq::<Call<D>>::empty(),
            r.dispatched() == Seq::<Call<D>>::empty(),
    {
        WorkflowContext { request, callback_queue_url, calls: Vec::new(), last_dispatch: Ghost(Seq::empty()) }
    }

    pub fn request(&self) -> (r: &T)
        ensures
            *r == self.spec_request(),
    {
        &self.request
    }

    /// The request for a call to a service: the task id is `unique_id`
    /// followed by the payload's task id.
    pub fn service_request<P: TaskId>(&self, unique_id: String, payload: P) -> (r: ServiceRequest<P>)
        ensures
            r.invocation_id@ == self.spec_request().invocation_id_view(),
            r.task_id@ == unique_id@ + payload.task_id_view(),
            r.callback_queue_url == self.callback_queue(),
            r.payload == payload,
    {
        let invocation_id = self.request.invocation_id().to_owned();
        let task_id = unique_id.concat(payload.task_id());
        ServiceRequest::new(invocation_id, task_id, self.callback_queue_url.clone(), payload)
    }

    /// Call an async service which won't return immediately.
    /// The call is queued with the service's dispatcher; `body` is the
    /// serialised `request`, or why it could not be serialised. Awaiting the
    /// call is `resolve`.
    pub fn call<P, Q, S: Service<P, Q, Dispatch = D>>(
        &mut self,
        service: &S,
        request: ServiceRequest<P>,
        body: Result<String, String>,
    ) -> (pending: PendingCall)
        ensures
            pending.invocation_id@ == old(self).spec_request().invocation_id_view(),
            pending.task_id == request.task_id,
            final(self).spec_request() == old(self).spec_request(),
            final(self).callback_queue() == old(self).callback_queue(),
            final(self).queued().len() == old(self).queued().len() + 1,
            final(self).queued().take(old(self).queued().len() as int) == old(self).queued(),
            final(self).queued().last().task_id == request.task_id,
            final(self).queued().last().request == body,
            final(self).dispatched() == old(self).dispatched(),
    {
        let dispatcher = service.dispatcher();
        let invocation_id = self.request.invocation_id().to_owned();
        let task_id = request.task_id;
        self.calls.push(Call { task_id: task_id.clone(), request: body, dispatcher });
        PendingCall { invocation_id, task_id }
    }

    /// Await a queued call. If the store holds the task as completed, its
    /// payload is returned. Otherwise all queued calls are dispatched and the
    /// workflow suspends.
    pub fn resolve<S: StateStore<T>>(&mut self, store: &mut S, pending: &PendingCall) -> (r: Result<String, WorkflowError>)
        ensures
            ({
                let faithful = old(store).faithful();
                let payload = completed_payload(old(store).task_at(pending.invocation_id@, pending.task_id@));
                let queued = old(self).queued();
                &&& final(store).faithful() == faithful
                &&& r is Ok ==> *final(store) == *old(store) && *final(self) == *old(self)
                &&& faithful && payload is Some ==> r == Ok::<String, WorkflowError>(payload->0)
                &&& faithful && payload is None ==> r is Err
                &&& old(store).states_failures() && old(store).get_task_failure(
                    pending.invocation_id@,
                    pending.task_id@,
                ) is Some ==> r is Err
                &&& r is Err ==> final(self).spec_request() == old(self).spec_request()
                    && final(self).callback_queue() == old(self).callback_queue()
                &&& r is Err ==> dispatch_outcome(
                    queued,
                    final(self).queued(),
                    final(self).dispatched(),
                    old(self).dispatched(),
                    *old(store),
                    *final(store),
                    old(self).spec_request().invocation_id_view(),
                    dispatch_result(r),
                )
                &&& faithful && payload is None && all_requests_ok(queued) && all_dispatchers_infallible(queued)
                    ==> (r matches Err(WorkflowError::Suspended))
            }),
    {
        let task_result = store.get_task(pending.invocation_id.as_str(), pending.task_id.as_str());
        if let Ok(task) = task_result {
            if let WorkflowTaskState::Completed(payload) = task.state {
                return Ok(payload);
            }
        }
        // Invoke all queued external tasks
        self.dispatch_calls(store)?;
        // Once ALL tasks have been dispatched, the function can be suspended
        Err(WorkflowError::Suspended)
    }

    /// Store each queued call's task as started, then send its request, in
    /// queue order; once all are sent the queue is emptied, so no call is
    /// dispatched twice.
    pub fn dispatch_calls<S: StateStore<T>>(&mut self, store: &mut S) -> (r: Result<(), WorkflowError>)
        ensures
            final(self).spec_request() == old(self).spec_request(),
            final(self).callback_queue() == old(self).callback_queue(),
            dispatch_outcome(
                old(self).queued(),
                final(self).queued(),
                final(self).dispatched(),
                old(self).dispatched(),
                *old(store),
                *final(store),
                old(self).spec_request().invocation_id_view(),
                r,
            ),
            r is Err ==> r matches Err(WorkflowError::Error(_)),
            old(store).faithful() && all_requests_ok(old(self).queued()) && all_dispatchers_infallible(
                old(self).queued(),
            ) ==> r is Ok,
    {
        let ghost calls0 = self.calls@;
        let invocation_id = self.request.invocation_id().to_owned();
        let n = self.calls.len();
        let mut i: usize = 0;
        while i < n
            invariant
                n == self.calls.len(),
                n == calls0.len(),
                calls0 == old(self).calls@,
                0 <= i <= n,
                self.request == old(self).request,
                self.callback_queue_url == old(self).callback_queue_url,
                self.last_dispatch == old(self).last_dispatch,
                invocation_id@ == self.request.invocation_id_view(),
                forall|j: int| 0 <= j < i ==> delivered(calls0[j], #[trigger] self.calls@[j], Ok(())),
                forall|j: int| 0 <= j < i ==> (#[trigger] calls0[j]).request is Ok,
                forall|j: int| i <= j < n ==> #[trigger] self.calls@[j] == calls0[j],
                store.faithful() == old(store).faithful(),
                n == 0 ==> *store == *old(store),
                old(store).faithful() ==> dispatched_into(*old(store), *store, invocation_id@, calls0.take(i as int)),
            decreases n - i,
        {
            let body = match &self.calls[i].request {
                Ok(body) => body.clone(),
                Err(reason) => {
                    let reason = reason.clone();
                    proof {
                        assert(failed_at(
                            calls0,
                            self.calls@,
                            *old(store),
                            *store,
                            invocation_id@,
                            Err(WorkflowError::Error(Error::Service(ServiceError::BadRequest(reason)))),
                            i as int,
                        ));
                    }
                    return Err(WorkflowError::Error(Error::Service(ServiceError::BadRequest(reason))));
                },
            };
            let running_task = WorkflowTask {
                invocation_id: invocation_id.clone(),
                task_id: self.calls[i].task_id.clone(),
                state: WorkflowTaskState::Started,
            };
            let ghost prev = *store;
            // Store the running task and dispatch the request
            match store.put_task(running_task) {
                Ok(()) => {},
                Err(e) => {
                    let ghost err = WorkflowError::Error(Error::State(e));
                    proof {
                        assert(failed_at(calls0, self.calls@, *old(store), *store, invocation_id@, Err(err), i as int));
                    }
                    return Err(WorkflowError::Error(Error::State(e)));
                },
            }
            proof {
                if old(store).faithful() {
                    let before = calls0.take(i as int);
                    let after = calls0.take(i + 1);
                    assert forall|j: int| 0 <= j < after.len() implies is_started(
                        store.task_at(invocation_id@, (#[trigger] after[j]).task_id@),
                        invocation_id@,
                        after[j].task_id@,
                    ) by {
                        if j < i {
                            assert(after[j] == before[j]);
                            if after[j].task_id@ != calls0[i as int].task_id@ {
                                assert(store.task_at(invocation_id@, after[j].task_id@) == prev.task_at(
                                    invocation_id@,
                                    after[j].task_id@,
                                ));
                            }
                        }
                    }
                    assert forall|ii: Seq<char>, k: Seq<char>| !queues_task(after, k) implies #[trigger] store.task_at(
                        ii,
                        k,
                    ) == old(store).task_at(ii, k) by {
                        assert(k != calls0[i as int].task_id@) by {
                            assert(after[i as int] == calls0[i as int]);
                        }
                        if queues_task(before, k) {
                            let j = choose|j: int| 0 <= j < before.len() && (#[trigger] before[j]).task_id@ == k;
                            assert(after[j] == before[j]);
                        }
                    }
                }
            }
            let ghost calls_before_send = self.calls@;
            let sent = self.calls[i].dispatcher.send_message(body);
            proof {
                assert(forall|j: int| 0 <= j < n && j != i ==> self.calls@[j] == calls_before_send[j]);
                assert(delivered(calls0[i as int], self.calls@[i as int], sent));
            }
            if sent.is_err() {
                let e = sent.unwrap_err();
                proof {
                    assert(failed_at(
                        calls0,
                        self.calls@,
                        *old(store),
                        *store,
                        invocation_id@,
                        Err(WorkflowError::Error(e)),
                        i as int,
                    ));
                }
                return Err(WorkflowError::Error(e));
            }
            proof {
                assert(sent->Ok_0 == ());
                assert(sent == Ok::<(), Error>(()));
                assert forall|j: int| 0 <= j < i + 1 implies delivered(calls0[j], #[trigger] self.calls@[j], Ok(())) by {
                    if j < i {
                        assert(self.calls@[j] == calls_before_send[j]);
                    }
                }
                assert forall|j: int| i + 1 <= j < n implies #[trigger] self.calls@[j] == calls0[j] by {
                    assert(self.calls@[j] == calls_before_send[j]);
                }
            }
            i = i + 1;
        }
        proof {
            assert(calls0.take(n as int) == calls0);
            self.last_dispatch = Ghost(self.calls@);
        }
        // Prevent other threads from making duplicate invocations
        self.calls.clear();
        Ok(())
    }
}

} // verus!
