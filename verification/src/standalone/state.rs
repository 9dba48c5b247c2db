use vstd::prelude::*;

use crate::standalone::model::CallState;

verus! {

/// Keeps the requests of workflows and the states of their calls.
/// Whether a write succeeds is a matter of the store and the key written; a
/// store that is `infallible` never fails a write, and a failed write changes
/// nothing.
pub trait StateStore<T: Clone>: Sized {
    /// The stored requests, keyed by workflow id.
    spec fn invocations(&self) -> Map<Seq<char>, T>;

    /// The stored call states, keyed by call id.
    spec fn calls(&self) -> Map<Seq<char>, CallState>;

    /// Whether every write of this store succeeds.
    spec fn infallible(&self) -> bool;

    /// What writing a request under `workflow_id` answers.
    spec fn put_invocation_outcome(&self, workflow_id: Seq<char>) -> Result<(), String>;

    /// What writing a call state under `call_id` answers.
    spec fn put_call_outcome(&self, call_id: Seq<char>) -> Result<(), String>;

    fn put_invocation(&mut self, workflow_id: &str, request: T) -> (r: Result<(), String>)
        ensures
            r == old(self).put_invocation_outcome(workflow_id@),
            r is Err ==> *final(self) == *old(self),
            old(self).infallible() ==> r is Ok,
            final(self).infallible() == old(self).infallible(),
            r is Ok ==> final(self).invocations() == old(self).invocations().insert(workflow_id@, request),
            r is Ok ==> final(self).calls() == old(self).calls(),
    ;

    fn get_invocation(&self, workflow_id: &str) -> (r: Option<T>)
        ensures
            r is Some <==> self.invocations().contains_key(workflow_id@),
            r matches Some(request) ==> cloned(self.invocations()[workflow_id@], request),
    ;

    fn put_call(&mut self, call_id: &str, state: CallState) -> (r: Result<(), String>)
        ensures
            r == old(self).put_call_outcome(call_id@),
            r is Err ==> *final(self) == *old(self),
            old(self).infallible() ==> r is Ok,
            final(self).infallible() == old(self).infallible(),
            r is Ok ==> final(self).calls() == old(self).calls().insert(call_id@, state),
            r is Ok ==> final(self).invocations() == old(self).invocations(),
    ;

    fn get_call(&self, call_id: &str) -> (r: Option<CallState>)
        ensures
            r == (if self.calls().contains_key(call_id@) {
                Some(self.calls()[call_id@])
            } else {
                None
            }),
    ;
}

} // verus!
