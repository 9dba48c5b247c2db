use vstd::prelude::*;

use crate::model::invocation::InvocationId;
use crate::model::task::TaskId;

verus! {

/// Wrapped string implementing types for request and payload responses.
#[derive(Debug)]
pub struct TestStr(pub String);

impl Clone for TestStr {
    fn clone(&self) -> (r: Self)
        ensures
            r == *self,
    {
        TestStr(self.0.clone())
    }
}

impl InvocationId for TestStr {
    open spec fn invocation_id_view(&self) -> Seq<char> {
        self.0@
    }

    fn invocation_id(&self) -> (id: &str) {
        self.0.as_str()
    }
}

impl TaskId for TestStr {
    open spec fn task_id_view(&self) -> Seq<char> {
        self.0@
    }

    fn task_id(&self) -> (id: &str) {
        self.0.as_str()
    }
}

impl From<String> for TestStr {
    fn from(s: String) -> (r: Self) {
        TestStr(s)
    }
}

impl vstd::std_specs::convert::FromSpecImpl<String> for TestStr {
    open spec fn obeys_from_spec() -> bool {
        true
    }

    open spec fn from_spec(s: String) -> TestStr {
        TestStr(s)
    }
}

} // verus!
