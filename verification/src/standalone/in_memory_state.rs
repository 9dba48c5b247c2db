use vstd::prelude::*;
use vstd::hash_map::StringHashMap;

use crate::standalone::model::CallState;
use crate::standalone::state::StateStore;

verus! {

/// A state store held in memory.
#[verifier::reject_recursive_types(T)]
pub struct InMemoryStateStore<T> {
    invocations: StringHashMap<T>,
    calls: StringHashMap<CallState>,
}

impl<T> InMemoryStateStore<T> {
    /// The stored requests, keyed by workflow id.
    pub closed spec fn invocation_map(&self) -> Map<Seq<char>, T> {
        self.invocations@
    }

    /// The stored call states, keyed by call id.
    pub closed spec fn call_map(&self) -> Map<Seq<char>, CallState> {
        self.calls@
    }
}

impl<T> Default for InMemoryStateStore<T> {
    fn default() -> (r: Self)
        ensures
            r.invocation_map() == Map::<Seq<char>, T>::empty(),
            r.call_map() == Map::<Seq<char>, CallState>::empty(),
    {
        InMemoryStateStore { invocations: StringHashMap::new(), calls: StringHashMap::new() }
    }
}

impl<T: Clone> StateStore<T> for InMemoryStateStore<T> {
    open spec fn invocations(&self) -> Map<Seq<char>, T> {
        self.invocation_map()
    }

    open spec fn calls(&self) -> Map<Seq<char>, CallState> {
        self.call_map()
    }

    open spec fn infallible(&self) -> bool {
        true
    }

    open spec fn put_invocation_outcome(&self, workflow_id: Seq<char>) -> Result<(), String> {
        Ok(())
    }

    open spec fn put_call_outcome(&self, call_id: Seq<char>) -> Result<(), String> {
        Ok(())
    }

    fn put_invocation(&mut self, workflow_id: &str, request: T) -> (r: Result<(), String>) {
        self.invocations.insert(workflow_id.to_owned(), request);
        Ok(())
    }

    fn get_invocation(&self, workflow_id: &str) -> (r: Option<T>) {
        match self.invocations.get(workflow_id) {
            Some(request) => Some(request.clone()),
            None => None,
        }
    }

    fn put_call(&mut self, call_id: &str, state: CallState) -> (r: Result<(), String>) {
        self.calls.insert(call_id.to_owned(), state);
        Ok(())
    }

    fn get_call(&self, call_id: &str) -> (r: Option<CallState>) {
        match self.calls.get(call_id) {
            Some(state) => Some(state.clone()),
            None => None,
        }
    }
}

} // verus!
