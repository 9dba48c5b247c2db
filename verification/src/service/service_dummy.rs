use vstd::prelude::*;

use crate::model::Error;
use crate::service::Dispatcher;

verus! {

/// A dummy dispatcher which always succeeds, for use in testing. It keeps the
/// messages handed to it.
#[derive(Clone, Copy)]
pub struct DummyCall {
    sent: Ghost<Seq<(String, Result<(), Error>)>>,
}

impl DummyCall {
    pub fn new() -> (r: Self)
        ensures
            r.deliveries() == Seq::<(String, Result<(), Error>)>::empty(),
    {
        DummyCall { sent: Ghost(Seq::empty()) }
    }
}

impl Dispatcher for DummyCall {
    open spec fn infallible(&self) -> bool {
        true
    }

    open spec fn records_sends(&self) -> bool {
        true
    }

    closed spec fn deliveries(&self) -> Seq<(String, Result<(), Error>)> {
        self.sent@
    }

    fn send_message(&mut self, payload: String) -> (r: Result<(), Error>) {
        proof {
            self.sent@ = self.sent@.push((payload, Ok(())));
        }
        Ok(())
    }
}

} // verus!
