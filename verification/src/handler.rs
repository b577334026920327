use vstd::prelude::*;
use std::sync::Arc;
use crate::body::Body;
use crate::context::ServerContext;
use crate::error::Error;
use crate::request::Request;
use crate::response::Response;

verus! {

/// The call capability every handler satisfies: given a mutable call context
/// and a request envelope carrying a payload of type `B`, produce a response
/// envelope or a structured failure.
///
/// An implementor states in `call_ens` what it promises of a finished call,
/// relating the context before the call, the context after it, the request,
/// and the outcome; `call` is then held to that promise.
///
/// A handler must be safely shareable across concurrent call paths: any
/// mutable state inside it is the implementor's to synchronize.
pub trait Handler<B>: Send + Sync {
    /// What the handler promises of every finished call.
    spec fn call_ens(
        &self,
        pre: ServerContext,
        post: ServerContext,
        req: Request<B>,
        outcome: Result<Response<Body>, Error>,
    ) -> bool;

    /// Handles one call: inspect (and possibly update) the context, consume
    /// the request, and produce the outcome.
    fn call(&self, cx: &mut ServerContext, req: Request<B>) -> (outcome: Result<
        Response<Body>,
        Error,
    >)
        ensures
            self.call_ens(*old(cx), *final(cx), req, outcome),
    ;
}

/// Relies on `Arc::clone`: the duplicate references the same allocation, so
/// it stands for the same value.
#[verifier::external_body]
fn dup_arc<T: ?Sized>(a: &Arc<T>) -> (r: Arc<T>)
    ensures
        r == *a,
{
    a.clone()
}

/// A type-erased, cheaply duplicable handle to one concrete handler, so that
/// handlers of differing concrete types can be stored uniformly in a
/// dispatch table. A pure forwarding shim: invoking the handle forwards
/// directly to the wrapped handler.
#[verifier::reject_recursive_types(B)]
pub struct Endpoint<B: 'static> {
    inner: Arc<Box<dyn Handler<B>>>,
}

impl<B> Endpoint<B> {
    /// Wraps one concrete handler into a handle: a pure forwarding shim
    /// whose promise ([`Handler::call_ens`]) is exactly the wrapped
    /// handler's own.
    ///
    /// Relies on `Box::new`, `Arc::new` and the language's unsizing
    /// coercion: the handle holds the very handler it was made from and adds
    /// nothing, so invoking it forwards directly to that handler. The
    /// coercion to `dyn` carries no specification in the verifier, which is
    /// why this one constructor is taken on trust.
    #[verifier::external_body]
    pub fn new<S: Handler<B> + 'static>(service: S) -> (r: Self)
        ensures
            forall|pre: ServerContext, post: ServerContext, req: Request<B>, outcome: Result<
                Response<Body>,
                Error,
            >|
                #[trigger] r.call_ens(pre, post, req, outcome) <==> service.call_ens(
                    pre,
                    post,
                    req,
                    outcome,
                ),
    {
        Endpoint { inner: Arc::new(Box::new(service)) }
    }
}

impl<B> Handler<B> for Endpoint<B> {
    /// The promise of the handler this handle was wrapped from.
    closed spec fn call_ens(
        &self,
        pre: ServerContext,
        post: ServerContext,
        req: Request<B>,
        outcome: Result<Response<Body>, Error>,
    ) -> bool {
        self.inner.call_ens(pre, post, req, outcome)
    }

    /// Forwards the call to the wrapped handler.
    fn call(&self, cx: &mut ServerContext, req: Request<B>) -> (outcome: Result<
        Response<Body>,
        Error,
    >) {
        self.inner.call(cx, req)
    }
}

impl<B> Clone for Endpoint<B> {
    /// Duplicates the handle in constant time; the duplicate references the
    /// same underlying handler and is the same value.
    fn clone(&self) -> (r: Self)
        ensures
            r == *self,
    {
        Endpoint { inner: dup_arc(&self.inner) }
    }
}

/// Duplication of a handle is transparent: a duplicate obtained from
/// [`Clone::clone`] is the very value that was duplicated, so invoking
/// either copy is governed by one and the same promise.
pub proof fn lemma_duplicate_transparent<B>(
    original: Endpoint<B>,
    duplicate: Endpoint<B>,
    pre: ServerContext,
    post: ServerContext,
    req: Request<B>,
    outcome: Result<Response<Body>, Error>,
)
    requires
        cloned::<Endpoint<B>>(original, duplicate),
    ensures
        duplicate == original,
        duplicate.call_ens(pre, post, req, outcome) == original.call_ens(pre, post, req, outcome),
{
}

/// A handler that answers every call with a fixed frame and leaves the
/// context untouched.
#[derive(Debug)]
pub struct FixedHandler {
    pub body: Body,
}

impl<B> Handler<B> for FixedHandler {
    /// Every call succeeds with the fixed frame; the context is unchanged.
    open spec fn call_ens(
        &self,
        pre: ServerContext,
        post: ServerContext,
        req: Request<B>,
        outcome: Result<Response<Body>, Error>,
    ) -> bool {
        &&& post == pre
        &&& outcome matches Ok(resp) && resp.spec_body()@ == self.body@
    }

    fn call(&self, cx: &mut ServerContext, req: Request<B>) -> (outcome: Result<
        Response<Body>,
        Error,
    >) {
        Ok(Response::new(self.body.clone()))
    }
}

/// A handler that rejects every call with a method-not-found failure
/// carrying a fixed method name: the sub-dispatch extension point of the
/// error taxonomy, for a service that routes among its own methods.
#[derive(Debug)]
pub struct MethodNotFoundHandler {
    pub method: String,
}

impl<B> Handler<B> for MethodNotFoundHandler {
    /// Every call fails with `Error::MethodNotFound` carrying the fixed
    /// method name; the context is unchanged.
    open spec fn call_ens(
        &self,
        pre: ServerContext,
        post: ServerContext,
        req: Request<B>,
        outcome: Result<Response<Body>, Error>,
    ) -> bool {
        &&& post == pre
        &&& outcome matches Err(Error::MethodNotFound(m)) && m@ == self.method@
    }

    fn call(&self, cx: &mut ServerContext, req: Request<B>) -> (outcome: Result<
        Response<Body>,
        Error,
    >) {
        Err(Error::MethodNotFound(self.method.clone()))
    }
}

} // verus!
