//! The request that a builder produces and a transport receives.

use vstd::prelude::*;

use crate::header::HeaderMap;

verus! {

#[verifier::external_type_specification]
#[verifier::external_body]
pub struct ExExtensions(http::Extensions);

/// Relies on `http::Extensions::new`: an empty bag of typed values.
pub assume_specification[ http::Extensions::new ]() -> http::Extensions;

/// Relies on `http::Extensions::insert`: stores the value under its type, handing back
/// the one it replaced.
pub assume_specification<T: Clone + Send + Sync + 'static>[ http::Extensions::insert::<T> ](
    ext: &mut http::Extensions,
    val: T,
) -> Option<T>;

/// The protocol version of a request.
#[derive(Clone, Copy, Debug, PartialEq, Eq, Structural)]
pub enum Version {
    Http09,
    Http10,
    Http11,
    Http2,
    Http3,
}

impl Version {
    /// The version a request has when none is chosen.
    pub fn default_version() -> (r: Version)
        ensures
            r == Version::Http11,
    {
        Version::Http11
    }
}

/// An HTTP request: method, target, version, headers, typed extensions and a body.
#[derive(Debug)]
pub struct Request<B> {
    pub(crate) method: String,
    pub(crate) uri: String,
    pub(crate) version: Version,
    pub(crate) headers: HeaderMap,
    pub(crate) extensions: http::Extensions,
    pub(crate) body: B,
}

impl<B> Request<B> {
    pub closed spec fn spec_method(&self) -> Seq<char> {
        self.method@
    }

    pub closed spec fn spec_uri(&self) -> Seq<char> {
        self.uri@
    }

    pub closed spec fn spec_version(&self) -> Version {
        self.version
    }

    pub closed spec fn spec_headers(&self) -> HeaderMap {
        self.headers
    }

    pub closed spec fn spec_body(&self) -> B {
        self.body
    }

    pub closed spec fn spec_extensions(&self) -> http::Extensions {
        self.extensions
    }

    pub(crate) fn from_parts(
        method: String,
        uri: String,
        version: Version,
        headers: HeaderMap,
        extensions: http::Extensions,
        body: B,
    ) -> (r: Request<B>)
        ensures
            r.spec_method() == method@,
            r.spec_uri() == uri@,
            r.spec_version() == version,
            r.spec_headers() == headers,
            r.spec_body() == body,
            r.spec_extensions() == extensions,
    {
        Request { method, uri, version, headers, extensions, body }
    }

    /// The headers, to change them in place; every other part stays.
    pub(crate) fn headers_mut(&mut self) -> (r: &mut HeaderMap)
        ensures
            *r == old(self).spec_headers(),
            final(self).spec_headers() == *final(r),
            final(self).spec_method() == old(self).spec_method(),
            final(self).spec_uri() == old(self).spec_uri(),
            final(self).spec_version() == old(self).spec_version(),
            final(self).spec_body() == old(self).spec_body(),
            final(self).spec_extensions() == old(self).spec_extensions(),
    {
        &mut self.headers
    }

    pub fn method(&self) -> (r: &str)
        ensures
            r@ == self.spec_method(),
    {
        self.method.as_str()
    }

    pub fn uri(&self) -> (r: &str)
        ensures
            r@ == self.spec_uri(),
    {
        self.uri.as_str()
    }

    pub fn version(&self) -> (r: Version)
        ensures
            r == self.spec_version(),
    {
        self.version
    }

    pub fn headers(&self) -> (r: &HeaderMap)
        ensures
            *r == self.spec_headers(),
    {
        &self.headers
    }

    pub fn extensions(&self) -> (r: &http::Extensions)
        ensures
            *r == self.spec_extensions(),
    {
        &self.extensions
    }

    pub fn body(&self) -> (r: &B)
        ensures
            *r == self.spec_body(),
    {
        &self.body
    }

    /// Splits the request into its parts: method, target, version, headers, extensions, body.
    pub fn into_parts(self) -> (r: (String, String, Version, HeaderMap, http::Extensions, B))
        ensures
            r.0@ == self.spec_method(),
            r.1@ == self.spec_uri(),
            r.2 == self.spec_version(),
            r.3 == self.spec_headers(),
            r.5 == self.spec_body(),
    {
        (self.method, self.uri, self.version, self.headers, self.extensions, self.body)
    }
}

} // verus!
