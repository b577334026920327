use vstd::prelude::*;

verus! {

/// A response envelope owning a payload of type `T`.
pub struct Response<T> {
    body: T,
}

impl<T> Response<T> {
    /// The payload, as a mathematical value.
    pub closed spec fn spec_body(&self) -> T {
        self.body
    }

    /// Wraps a payload into a response envelope, taking ownership of it.
    pub fn new(body: T) -> (r: Self)
        ensures
            r.spec_body() == body,
    {
        Self { body }
    }

    /// Borrows the payload.
    pub fn body(&self) -> (r: &T)
        ensures
            *r == self.spec_body(),
    {
        &self.body
    }

    /// Consumes the envelope and moves the payload out.
    pub fn into_body(self) -> (r: T)
        ensures
            r == self.spec_body(),
    {
        self.body
    }
}

} // verus!
