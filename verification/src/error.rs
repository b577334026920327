use vstd::prelude::*;

verus! {

/// Declares `std::io::Error` so a transport-originated failure can be
/// carried through the taxonomy unchanged. The router never constructs or
/// inspects such a value.
#[verifier::external_type_specification]
#[verifier::external_body]
pub struct ExIoError(std::io::Error);

/// The structured failures a call can surface.
#[derive(Debug)]
pub enum Error {
    /// A lower-level I/O failure, wrapped verbatim. Produced by external
    /// collaborators and passed through unchanged by the router.
    IOError(std::io::Error),
    /// Produced by the router when the dispatch key matches no registered
    /// path; carries the computed path.
    ServiceNotFound(String),
    /// Reserved for handlers that route among their own methods and want to
    /// report a sub-dispatch miss; never emitted by the router itself.
    MethodNotFound(String),
}

} // verus!
