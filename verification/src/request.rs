use vstd::prelude::*;

verus! {

/// A request envelope owning a payload of type `T`, together with the
/// service and method identification accumulated by its [`Builder`].
pub struct Request<T> {
    builder: Builder,
    body: T,
}

impl<T> Request<T> {
    /// The payload, as a mathematical value.
    pub closed spec fn spec_body(&self) -> T {
        self.body
    }

    /// The builder the envelope was finalized from.
    pub closed spec fn spec_builder(&self) -> Builder {
        self.builder
    }

    /// Wraps a payload into a request envelope with empty service and method
    /// identification, taking ownership of the payload.
    pub fn new(body: T) -> (r: Self)
        ensures
            r.spec_body() == body,
            r.spec_builder().spec_service() == Seq::<char>::empty(),
            r.spec_builder().spec_method() == Seq::<char>::empty(),
    {
        Self { builder: Builder::new(), body }
    }

    /// Starts a fresh builder for constructing a request programmatically.
    pub fn builder() -> (r: Builder)
        ensures
            r.spec_service() == Seq::<char>::empty(),
            r.spec_method() == Seq::<char>::empty(),
    {
        Builder::new()
    }

    /// Borrows the payload.
    pub fn body(&self) -> (r: &T)
        ensures
            *r == self.spec_body(),
    {
        &self.body
    }

    /// Consumes the envelope and moves the payload out.
    pub fn into_body(self) -> (r: T)
        ensures
            r == self.spec_body(),
    {
        self.body
    }
}

/// A staging object that accumulates the service and method of a request
/// before it is finalized into a [`Request`] by [`Builder::body`].
#[derive(Debug)]
pub struct Builder {
    service: String,
    method: String,
}

impl Clone for Builder {
    /// Duplicates the builder; the copy accumulates the same service and
    /// method.
    fn clone(&self) -> (r: Self)
        ensures
            r.spec_service() == self.spec_service(),
            r.spec_method() == self.spec_method(),
    {
        Builder { service: self.service.clone(), method: self.method.clone() }
    }
}

impl Builder {
    /// The accumulated service name.
    pub closed spec fn spec_service(&self) -> Seq<char> {
        self.service@
    }

    /// The accumulated method name.
    pub closed spec fn spec_method(&self) -> Seq<char> {
        self.method@
    }

    /// A builder with empty service and method.
    pub fn new() -> (r: Builder)
        ensures
            r.spec_service() == Seq::<char>::empty(),
            r.spec_method() == Seq::<char>::empty(),
    {
        Builder { service: String::new(), method: String::new() }
    }

    /// Sets the service name, keeping the method.
    pub fn service(self, service: &str) -> (r: Self)
        ensures
            r.spec_service() == service@,
            r.spec_method() == self.spec_method(),
    {
        Builder { service: service.to_owned(), method: self.method }
    }

    /// Sets the method name, keeping the service.
    pub fn method(self, method: &str) -> (r: Self)
        ensures
            r.spec_service() == self.spec_service(),
            r.spec_method() == method@,
    {
        Builder { service: self.service, method: method.to_owned() }
    }

    /// Finalizes the builder into a request envelope around the given
    /// payload.
    pub fn body<T>(self, body: T) -> (r: Request<T>)
        ensures
            r.spec_body() == body,
            r.spec_builder() == self,
    {
        Request { builder: self, body }
    }
}

impl Default for Builder {
    /// Same as [`Builder::new`]: a builder with empty service and method.
    fn default() -> (r: Builder)
        ensures
            r.spec_service() == Seq::<char>::empty(),
            r.spec_method() == Seq::<char>::empty(),
    {
        Builder::new()
    }
}

} // verus!
