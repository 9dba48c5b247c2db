use vstd::prelude::*;
use vstd::hash_map::StringHashMap;

use crate::model::invocation::WorkflowInvocation;
use crate::model::task::WorkflowTask;
use crate::state::{StateError, StateErrorReason, StateOperation, StateStore};

verus! {

/// A state store held in memory: requests keyed by invocation id, tasks keyed
/// by task id alone.
#[verifier::reject_recursive_types(Request)]
pub struct InMemoryStateStore<Request> {
    invocations: StringHashMap<Request>,
    calls: StringHashMap<WorkflowTask>,
}

impl<Request> InMemoryStateStore<Request> {
    /// The stored requests, keyed by invocation id.
    pub closed spec fn invocation_map(&self) -> Map<Seq<char>, Request> {
        self.invocations@
    }

    /// The stored tasks, keyed by task id.
    pub closed spec fn task_map(&self) -> Map<Seq<char>, WorkflowTask> {
        self.calls@
    }
}

impl<Request> Default for InMemoryStateStore<Request> {
    fn default() -> (r: Self)
        ensures
            r.invocation_map() == Map::<Seq<char>, Request>::empty(),
            r.task_map() == Map::<Seq<char>, WorkflowTask>::empty(),
    {
        InMemoryStateStore { invocations: StringHashMap::new(), calls: StringHashMap::new() }
    }
}

impl<Request: Clone> StateStore<Request> for InMemoryStateStore<Request> {
    open spec fn invocations(&self) -> Map<Seq<char>, Request> {
        self.invocation_map()
    }

    /// The invocation id plays no part in finding a task.
    open spec fn task_at(&self, invocation_id: Seq<char>, task_id: Seq<char>) -> Option<WorkflowTask> {
        if self.task_map().contains_key(task_id) {
            Some(self.task_map()[task_id])
        } else {
            None
        }
    }

    open spec fn faithful(&self) -> bool {
        true
    }

    open spec fn states_failures(&self) -> bool {
        true
    }

    open spec fn put_invocation_failure(&self, invocation_id: Seq<char>) -> Option<StateErrorReason> {
        None
    }

    /// Reading an invocation fails only where none is stored.
    open spec fn get_invocation_failure(&self, invocation_id: Seq<char>) -> Option<StateErrorReason> {
        if self.invocation_map().contains_key(invocation_id) {
            None
        } else {
            Some(StateErrorReason::MissingEntry)
        }
    }

    open spec fn put_task_failure(&self, invocation_id: Seq<char>, task_id: Seq<char>) -> Option<StateErrorReason> {
        None
    }

    /// Reading a task fails only where none is stored under its task id.
    open spec fn get_task_failure(&self, invocation_id: Seq<char>, task_id: Seq<char>) -> Option<StateErrorReason> {
        if self.task_map().contains_key(task_id) {
            None
        } else {
            Some(StateErrorReason::MissingEntry)
        }
    }

    fn put_invocation(&mut self, invocation: WorkflowInvocation<Request>) -> (r: Result<(), StateError>)
        ensures
            final(self).invocation_map() == old(self).invocation_map().insert(
                invocation.invocation_id@,
                invocation.request,
            ),
            final(self).task_map() == old(self).task_map(),
    {
        self.invocations.insert(invocation.invocation_id, invocation.request);
        Ok(())
    }

    fn get_invocation(&self, invocation_id: &str) -> (r: Result<Request, StateError>) {
        match self.invocations.get(invocation_id) {
            Some(request) => Ok(request.clone()),
            None => Err(
                StateError {
                    state_key: invocation_id.to_owned(),
                    operation: StateOperation::GetInvocation,
                    reason: StateErrorReason::MissingEntry,
                },
            ),
        }
    }

    fn put_task(&mut self, task: WorkflowTask) -> (r: Result<(), StateError>)
        ensures
            final(self).task_map() == old(self).task_map().insert(task.task_id@, task),
            final(self).invocation_map() == old(self).invocation_map(),
    {
        self.calls.insert(task.task_id.clone(), task);
        Ok(())
    }

    fn get_task(&self, _invocation_id: &str, task_id: &str) -> (r: Result<WorkflowTask, StateError>) {
        match self.calls.get(task_id) {
            Some(task) => Ok(task.clone()),
            None => Err(
                StateError {
                    state_key: task_id.to_owned(),
                    operation: StateOperation::GetTask,
                    reason: StateErrorReason::MissingEntry,
                },
            ),
        }
    }
}

/// A write made to a store: a request stored as an invocation, or a task.
pub enum StoreWrite<Request> {
    Invocation(WorkflowInvocation<Request>),
    Task(WorkflowTask),
}

/// `after` is the in-memory store `before` once `write` was made to it, as
/// `put_invocation` and `put_task` leave it.
pub open spec fn written<Request>(
    before: InMemoryStateStore<Request>,
    after: InMemoryStateStore<Request>,
    write: StoreWrite<Request>,
) -> bool {
    match write {
        StoreWrite::Invocation(invocation) => {
            &&& after.invocation_map() == before.invocation_map().insert(
                invocation.invocation_id@,
                invocation.request,
            )
            &&& after.task_map() == before.task_map()
        },
        StoreWrite::Task(task) => {
            &&& after.task_map() == before.task_map().insert(task.task_id@, task)
            &&& after.invocation_map() == before.invocation_map()
        },
    }
}

/// The request of the last invocation in `writes` written under
/// `invocation_id`, if there is one.
pub open spec fn last_request<Request>(writes: Seq<StoreWrite<Request>>, invocation_id: Seq<char>) -> Option<Request>
    decreases writes.len(),
{
    if writes.len() == 0 {
        None
    } else if writes.last() is Invocation && writes.last()->Invocation_0.invocation_id@ == invocation_id {
        Some(writes.last()->Invocation_0.request)
    } else {
        last_request(writes.drop_last(), invocation_id)
    }
}

/// The last task in `writes` with the task id `task_id`, if there is one.
pub open spec fn last_task<Request>(writes: Seq<StoreWrite<Request>>, task_id: Seq<char>) -> Option<WorkflowTask>
    decreases writes.len(),
{
    if writes.len() == 0 {
        None
    } else if writes.last() is Task && writes.last()->Task_0.task_id@ == task_id {
        Some(writes.last()->Task_0)
    } else {
        last_task(writes.drop_last(), task_id)
    }
}

/// What `get_invocation` finds under `invocation_id`, as an option.
pub open spec fn stored_request<Request: Clone>(store: InMemoryStateStore<Request>, invocation_id: Seq<char>) -> Option<
    Request,
> {
    if store.invocations().contains_key(invocation_id) {
        Some(store.invocations()[invocation_id])
    } else {
        None
    }
}

/// A read gives back the last write: an in-memory store that started empty
/// (as `default` makes it) and then took the writes `writes`, one after the
/// other, holds under each invocation id the request of the last invocation
/// written under it, and under each task id, whatever the invocation id of
/// the lookup, the last task written with it; where nothing was written,
/// nothing is found, and `get_invocation` and `get_task` fail with
/// `MissingEntry`.
pub proof fn law_in_memory_reads_last_write<Request: Clone>(
    stores: Seq<InMemoryStateStore<Request>>,
    writes: Seq<StoreWrite<Request>>,
    invocation_id: Seq<char>,
    lookup_invocation_id: Seq<char>,
    task_id: Seq<char>,
)
    requires
        stores.len() == writes.len() + 1,
        stores[0].invocation_map() == Map::<Seq<char>, Request>::empty(),
        stores[0].task_map() == Map::<Seq<char>, WorkflowTask>::empty(),
        forall|j: int| 0 <= j < writes.len() ==> written(stores[j], stores[j + 1], #[trigger] writes[j]),
    ensures
        stored_request(stores.last(), invocation_id) == last_request(writes, invocation_id),
        stores.last().task_at(lookup_invocation_id, task_id) == last_task(writes, task_id),
        stores.last().get_invocation_failure(invocation_id) is Some <==> last_request(writes, invocation_id) is None,
        stores.last().get_task_failure(lookup_invocation_id, task_id) is Some <==> last_task(writes, task_id) is None,
{
    lemma_reads_after_writes(stores, writes, invocation_id, lookup_invocation_id, task_id, writes.len() as int);
    assert(writes.take(writes.len() as int) == writes);
}

proof fn lemma_reads_after_writes<Request: Clone>(
    stores: Seq<InMemoryStateStore<Request>>,
    writes: Seq<StoreWrite<Request>>,
    invocation_id: Seq<char>,
    lookup_invocation_id: Seq<char>,
    task_id: Seq<char>,
    n: int,
)
    requires
        stores.len() == writes.len() + 1,
        stores[0].invocation_map() == Map::<Seq<char>, Request>::empty(),
        stores[0].task_map() == Map::<Seq<char>, WorkflowTask>::empty(),
        forall|j: int| 0 <= j < writes.len() ==> written(stores[j], stores[j + 1], #[trigger] writes[j]),
        0 <= n <= writes.len(),
    ensures
        stored_request(stores[n], invocation_id) == last_request(writes.take(n), invocation_id),
        stores[n].task_at(lookup_invocation_id, task_id) == last_task(writes.take(n), task_id),
    decreases n,
{
    if n > 0 {
        lemma_reads_after_writes(stores, writes, invocation_id, lookup_invocation_id, task_id, n - 1);
        assert(writes.take(n).drop_last() == writes.take(n - 1));
        assert(writes.take(n).last() == writes[n - 1]);
        assert(written(stores[n - 1], stores[n], writes[n - 1]));
    }
}

} // verus!
