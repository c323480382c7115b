//! Building HTTP requests and decoding responses over an interchangeable transport,
//! with middleware that sets request headers.

use vstd::prelude::*;

pub mod auth;
pub mod body_reader;
pub mod client_request;
pub mod codec;
pub mod header;
pub mod request;
pub mod set_header;

verus! {

/// Adapts a transport to the requests of this library.
#[derive(Debug)]
pub struct HttpClientService<S>(S);

impl<S> HttpClientService<S> {
    pub closed spec fn spec_inner(&self) -> S {
        self.0
    }

    /// Wraps the transport.
    pub fn new(inner: S) -> (r: Self)
        ensures
            r.spec_inner() == inner,
    {
        HttpClientService(inner)
    }

    pub fn inner(&self) -> (r: &S)
        ensures
            *r == self.spec_inner(),
    {
        &self.0
    }

    /// The transport, to hand it a converted request.
    pub fn inner_mut(&mut self) -> (r: &mut S)
        ensures
            *r == old(self).spec_inner(),
            *final(r) == final(self).spec_inner(),
    {
        &mut self.0
    }

    pub fn into_inner(self) -> (r: S)
        ensures
            r == self.spec_inner(),
    {
        self.0
    }
}

/// Makes an [`HttpClientService`] of a transport.
#[derive(Debug, Clone, Copy)]
pub struct HttpClientLayer;

impl HttpClientLayer {
    pub fn layer<S>(&self, service: S) -> (r: HttpClientService<S>)
        ensures
            r.spec_inner() == service,
    {
        HttpClientService::new(service)
    }
}

/// Ties a lifetime to a returned future without other bounds.
pub trait Captures<U> {}

impl<T: ?Sized, U> Captures<U> for T {}

} // verus!
