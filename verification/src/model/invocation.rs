use vstd::prelude::*;

verus! {

/// Identifies the workflow invocation that a value belongs to.
/// This id is used for tracing and storage.
pub trait InvocationId {
    /// The invocation id as a sequence of characters.
    spec fn invocation_id_view(&self) -> Seq<char>;

    fn invocation_id(&self) -> (id: &str)
        ensures
            id@ == self.invocation_id_view(),
    ;
}

/// The request that started a workflow, stored under its invocation id.
#[derive(Debug)]
pub struct WorkflowInvocation<Request> {
    pub invocation_id: String,
    pub request: Request,
}

} // verus!
