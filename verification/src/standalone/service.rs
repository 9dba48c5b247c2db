use vstd::prelude::*;

verus! {

/// A service which doesn't respond immediately.
/// The response is returned using a callback mechanism.
/// A service that is `infallible` accepts every call; one that
/// `records_calls` keeps, as `received`, every request handed to it with what
/// the call returned.
pub trait AsyncService<Request> {
    /// Whether every call of this service succeeds; unless a service states
    /// it, nothing is assumed.
    open spec fn infallible(&self) -> bool {
        false
    }

    /// Whether this service keeps what it `received`; unless a service states
    /// it, nothing is assumed.
    open spec fn records_calls(&self) -> bool {
        false
    }

    /// The requests handed to this service, oldest first, each with what the
    /// call returned.
    open spec fn received(&self) -> Seq<(Request, Result<(), String>)> {
        Seq::empty()
    }

    fn call(&mut self, request: Request) -> (r: Result<(), String>)
        ensures
            old(self).infallible() ==> r is Ok,
            final(self).infallible() == old(self).infallible(),
            final(self).records_calls() == old(self).records_calls(),
            old(self).records_calls() ==> final(self).received() == old(self).received().push((request, r)),
    ;
}

/// A service whose calls always succeed.
pub struct DummyService {}

impl<T> AsyncService<T> for DummyService {
    open spec fn infallible(&self) -> bool {
        true
    }

    fn call(&mut self, _request: T) -> (r: Result<(), String>) {
        Ok(())
    }
}

} // verus!
