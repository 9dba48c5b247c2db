use vstd::prelude::*;

verus! {

/// A service reached by sending its requests to a queue.
pub struct SqsService {
    pub queue_url: String,
}

impl SqsService {
    pub fn new(queue_url: String) -> (r: Self)
        ensures
            r.queue_url == queue_url,
    {
        SqsService { queue_url }
    }
}

} // verus!
