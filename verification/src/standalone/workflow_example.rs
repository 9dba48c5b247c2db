use vstd::prelude::*;

use crate::standalone::model::{CallState, WorkflowError, WorkflowId};
use crate::standalone::service::DummyService;
use crate::standalone::state::StateStore;
use crate::standalone::workflow_engine::WorkflowContext;

verus! {

/// The request of the example workflow.
#[derive(Debug)]
pub struct RequestExample {
    pub id: String,
    pub item_id: String,
}

impl Clone for RequestExample {
    fn clone(&self) -> (r: Self)
        ensures
            r == *self,
    {
        RequestExample { id: self.id.clone(), item_id: self.item_id.clone() }
    }
}

impl WorkflowId for RequestExample {
    open spec fn workflow_id_view(&self) -> Seq<char> {
        self.id@
    }

    fn workflow_id(&self) -> (id: &str) {
        self.id.as_str()
    }
}

/// The response of the example workflow.
#[derive(Debug)]
pub struct ResponseExample {
    pub id: String,
    pub item_id: String,
    pub payload: String,
}

/// Calls a service with the request's item id and responds with the value
/// that the call returned.
pub fn workflow_example<S: StateStore<RequestExample>>(ctx: WorkflowContext<RequestExample>, store: &mut S) -> (r: Result<
    ResponseExample,
    WorkflowError,
>)
    ensures
        ({
            let request = ctx.spec_request();
            let item = request.item_id@;
            &&& old(store).calls().contains_key(item) ==> *final(store) == *old(store) && match old(
                store,
            ).calls()[item] {
                CallState::Running => r matches Err(WorkflowError::Suspended),
                CallState::Completed(result) => r matches Ok(response) && response.id == request.id
                    && response.item_id == request.item_id && response.payload == result.value,
            }
            &&& !old(store).calls().contains_key(item) && old(store).put_call_outcome(item) is Err ==> r
                == Err::<ResponseExample, WorkflowError>(WorkflowError::Error(old(store).put_call_outcome(item)->Err_0))
                && *final(store) == *old(store)
            &&& !old(store).calls().contains_key(item) && old(store).put_call_outcome(item) is Ok ==> (r matches Err(
                WorkflowError::Suspended,
            ) && final(store).calls() == old(store).calls().insert(item, CallState::Running)
                && final(store).invocations() == old(store).invocations())
        }),
{
    let request = ctx.get_request();
    let result = match ctx.call(store, &mut DummyService {}, request.item_id.as_str()) {
        Ok(value) => value,
        Err(e) => {
            return Err(e);
        },
    };
    Ok(ResponseExample { id: request.id.clone(), item_id: request.item_id.clone(), payload: result })
}

} // verus!
