use vstd::prelude::*;
use vstd::string::StringExecFns;

verus! {

/// The canonical dispatch key derived from a service name and a method name:
/// `/{service}/{method}`.
pub open spec fn spec_path(service: Seq<char>, method: Seq<char>) -> Seq<char> {
    seq!['/'] + service + seq!['/'] + method
}

/// Per-invocation metadata identifying the target service and method of an
/// inbound call.
#[derive(Debug)]
pub struct ServerContext {
    pub service: String,
    pub method: String,
}

impl ServerContext {
    /// The dispatch key this context resolves to, as a mathematical value.
    pub open spec fn spec_service_path(&self) -> Seq<char> {
        spec_path(self.service@, self.method@)
    }

    /// Builds the canonical path string `/{service}/{method}` used as the
    /// exact lookup key during dispatch.
    pub fn service_path(&self) -> (r: String)
        ensures
            r@ == self.spec_service_path(),
    {
        let mut r = String::new();
        r.append("/");
        r.append(self.service.as_str());
        r.append("/");
        r.append(self.method.as_str());
        proof {
            reveal_strlit("/");
            assert(r@ =~= self.spec_service_path());
        }
        r
    }
}

} // verus!
