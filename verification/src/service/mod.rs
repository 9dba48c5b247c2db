pub mod service_dummy;

use vstd::prelude::*;

use crate::model::task::TaskId;
use crate::model::Error;

verus! {

/// A request to an asynchronous service.
#[derive(Debug)]
pub struct ServiceRequest<Request> {
    pub invocation_id: String,
    /// The task id is used as an idempotency key.
    pub task_id: String,
    /// Callback to allow the service to respond.
    pub callback_queue_url: String,
    pub payload: Request,
}

impl<Request: TaskId> ServiceRequest<Request> {
    pub fn new(invocation_id: String, task_id: String, callback_queue_url: String, payload: Request) -> (r: Self)
        ensures
            r.invocation_id == invocation_id,
            r.task_id == task_id,
            r.callback_queue_url == callback_queue_url,
            r.payload == payload,
    {
        Self { invocation_id, task_id, callback_queue_url, payload }
    }
}

/// Sends a serialised service request to a service.
/// A dispatcher that is `infallible` sends every message. A dispatcher that
/// `records_sends` keeps, as `deliveries`, every message handed to it with
/// what its send returned.
pub trait Dispatcher {
    /// Whether every send of this dispatcher succeeds; unless a dispatcher
    /// states it, nothing is assumed.
    open spec fn infallible(&self) -> bool {
        false
    }

    /// Whether this dispatcher keeps its `deliveries`; unless a dispatcher
    /// states it, nothing is assumed.
    open spec fn records_sends(&self) -> bool {
        false
    }

    /// The messages handed to this dispatcher, oldest first, each with what
    /// its send returned.
    open spec fn deliveries(&self) -> Seq<(String, Result<(), Error>)> {
        Seq::empty()
    }

    fn send_message(&mut self, payload: String) -> (r: Result<(), Error>)
        ensures
            old(self).infallible() ==> r is Ok,
            final(self).infallible() == old(self).infallible(),
            final(self).records_sends() == old(self).records_sends(),
            old(self).records_sends() ==> final(self).deliveries() == old(self).deliveries().push((payload, r)),
    ;
}

/// Name details, Request and Response types for an asynchronous service.
/// The response is returned using a callback mechanism.
pub trait Service<Request, Response> {
    /// The dispatcher with which requests to this service are made.
    type Dispatch: Dispatcher;

    fn name(&self) -> &'static str;

    /// The dispatcher implementation with which to make the request.
    fn dispatcher(&self) -> Self::Dispatch;
}

/// Errors arising from calling a service.
#[derive(Debug)]
pub enum ServiceError {
    /// The service request couldn't be serialised.
    BadRequest(String),
    /// The service returned an invalid response.
    BadResponse(String),
}

} // verus!
