//! Middleware that sets the `Authorization` header of every request.

use vstd::prelude::*;
use vstd::string::StringExecFns;
use vstd::utf8::encode_utf8;

use base64::Engine;

use crate::header::{
    is_header_value, is_visible_ascii, lemma_visible_ascii_value, without, EntryView, HeaderName,
    HeaderValue, InvalidHeaderValue,
};
use crate::request::Request;
use crate::set_header::same_but_headers;

verus! {

/// The standard base64 text (RFC 4648 alphabet, with padding) of the bytes.
pub uninterp spec fn base64_text(b: Seq<u8>) -> Seq<char>;

pub open spec fn is_base64_char(c: char) -> bool {
    ||| ('A' <= c && c <= 'Z')
    ||| ('a' <= c && c <= 'z')
    ||| ('0' <= c && c <= '9')
    ||| c == '+' || c == '/' || c == '='
}

/// Relies on the `encode` of base64's `general_purpose::STANDARD` engine: the text is
/// written in the standard alphabet, padded with `=`.
#[verifier::external_body]
fn base64_encode(b: &[u8]) -> (r: String)
    ensures
        r@ == base64_text(b@),
        forall|i: int| 0 <= i < r@.len() ==> is_base64_char(#[trigger] r@[i]),
{
    base64::engine::general_purpose::STANDARD.encode(b)
}

/// The header text for a username and password: `Basic` and the base64 of `user:password`.
pub open spec fn basic_text(username: Seq<char>, password: Seq<char>) -> Seq<char> {
    "Basic "@ + base64_text(encode_utf8(username + ":"@ + password))
}

/// The header text for a bearer token.
pub open spec fn bearer_text(token: Seq<char>) -> Seq<char> {
    "Bearer "@ + token
}

/// The headers of a request once its `Authorization` header is set to `value`.
pub open spec fn authorized(headers: Seq<EntryView>, value: (Seq<u8>, bool)) -> Seq<EntryView> {
    without(headers, "authorization"@).push(("authorization"@, value))
}

/// The name `authorization`.
fn authorization_name() -> (r: HeaderName)
    ensures
        r@ == "authorization"@,
{
    proof {
        reveal_strlit("authorization");
        assert(crate::header::ascii_lowercase("authorization"@) =~= "authorization"@);
    }
    HeaderName::from_lowercase("authorization")
}

/// A header value from a text, or the error that the text is no valid value.
fn value_of(text: String) -> (r: Result<HeaderValue, InvalidHeaderValue>)
    ensures
        r is Ok <==> is_header_value(encode_utf8(text@)),
        r is Ok ==> r->Ok_0@ == (encode_utf8(text@), false),
{
    match HeaderValue::from_text(text.as_str()) {
        Some(v) => Ok(v),
        None => Err(InvalidHeaderValue),
    }
}

/// Layer that wraps a transport in [`AddAuthorizationService`].
pub struct AddAuthorizationLayer {
    value: HeaderValue,
}

impl AddAuthorizationLayer {
    pub closed spec fn spec_value(&self) -> (Seq<u8>, bool) {
        self.value@
    }

    /// Authorizes with a username and password: the header is `Basic` followed by the
    /// base64 of `username:password`. That text is always a valid header value.
    pub fn basic(username: &str, password: &str) -> (r: Result<Self, InvalidHeaderValue>)
        ensures
            r is Ok,
            r->Ok_0.spec_value() == (encode_utf8(basic_text(username@, password@)), false),
    {
        let mut credentials = username.to_owned();
        credentials.append(":");
        credentials.append(password);
        proof {
            reveal_strlit(":");
        }
        let encoded = base64_encode(credentials.as_str().as_bytes());
        let mut text = "Basic ".to_owned();
        text.append(encoded.as_str());
        proof {
            reveal_strlit("Basic ");
            assert(is_visible_ascii(text@)) by {
                assert forall|i: int| 0 <= i < text@.len() implies ' ' <= #[trigger] text@[i]
                    && text@[i] <= '~' by {
                    if i >= 6 {
                        assert(text@[i] == encoded@[i - 6]);
                        assert(is_base64_char(encoded@[i - 6]));
                    }
                }
            }
            lemma_visible_ascii_value(text@);
        }
        match value_of(text) {
            Ok(value) => Ok(AddAuthorizationLayer { value }),
            Err(e) => Err(e),
        }
    }

    /// Authorizes with a bearer token: the header is `Bearer` followed by the token, which
    /// fails when that is no valid header value.
    pub fn bearer(token: &str) -> (r: Result<Self, InvalidHeaderValue>)
        ensures
            r is Ok <==> is_header_value(encode_utf8(bearer_text(token@))),
            r is Ok ==> r->Ok_0.spec_value() == (encode_utf8(bearer_text(token@)), false),
    {
        let mut text = "Bearer ".to_owned();
        text.append(token);
        match value_of(text) {
            Ok(value) => Ok(AddAuthorizationLayer { value }),
            Err(e) => Err(e),
        }
    }

    /// Marks the header value as sensitive, to keep it out of logs, or clears the mark.
    pub fn set_sensitive(self, sensitive: bool) -> (r: Self)
        ensures
            r.spec_value() == (self.spec_value().0, sensitive),
    {
        let mut value = self.value;
        value.set_sensitive(sensitive);
        AddAuthorizationLayer { value }
    }

    pub fn value(&self) -> (r: &HeaderValue)
        ensures
            r@ == self.spec_value(),
    {
        &self.value
    }

    /// Wraps `inner` in a service that authorizes with this layer's value.
    pub fn layer<S>(&self, inner: S) -> (r: AddAuthorizationService<S>)
        ensures
            r.spec_inner() == inner,
            r.spec_value() == self.spec_value(),
    {
        AddAuthorizationService { inner, value: self.value.duplicate() }
    }
}

impl Clone for AddAuthorizationLayer {
    fn clone(&self) -> Self {
        AddAuthorizationLayer { value: self.value.duplicate() }
    }
}

/// Middleware that sets the `Authorization` header on each request, replacing any
/// value already there, before handing it to `inner`.
pub struct AddAuthorizationService<S> {
    inner: S,
    value: HeaderValue,
}

impl<S> AddAuthorizationService<S> {
    pub closed spec fn spec_inner(&self) -> S {
        self.inner
    }

    pub closed spec fn spec_value(&self) -> (Seq<u8>, bool) {
        self.value@
    }

    /// Authorizes with a username and password; see [`AddAuthorizationLayer::basic`].
    pub fn basic(inner: S, username: &str, password: &str) -> (r: Result<
        Self,
        InvalidHeaderValue,
    >)
        ensures
            r is Ok,
            r->Ok_0.spec_inner() == inner,
            r->Ok_0.spec_value() == (encode_utf8(basic_text(username@, password@)), false),
    {
        match AddAuthorizationLayer::basic(username, password) {
            Ok(layer) => Ok(layer.layer(inner)),
            Err(e) => Err(e),
        }
    }

    /// Authorizes with a bearer token; see [`AddAuthorizationLayer::bearer`].
    pub fn bearer(inner: S, token: &str) -> (r: Result<Self, InvalidHeaderValue>)
        ensures
            r is Ok <==> is_header_value(encode_utf8(bearer_text(token@))),
            r is Ok ==> r->Ok_0.spec_inner() == inner && r->Ok_0.spec_value() == (
                encode_utf8(bearer_text(token@)),
                false,
            ),
    {
        match AddAuthorizationLayer::bearer(token) {
            Ok(layer) => Ok(layer.layer(inner)),
            Err(e) => Err(e),
        }
    }

    /// Marks the header value as sensitive, to keep it out of logs, or clears the mark.
    pub fn set_sensitive(self, sensitive: bool) -> (r: Self)
        ensures
            r.spec_inner() == self.spec_inner(),
            r.spec_value() == (self.spec_value().0, sensitive),
    {
        let AddAuthorizationService { inner, value } = self;
        let mut value = value;
        value.set_sensitive(sensitive);
        AddAuthorizationService { inner, value }
    }

    pub fn inner(&self) -> (r: &S)
        ensures
            *r == self.spec_inner(),
    {
        &self.inner
    }

    /// The wrapped transport, to hand it the request once it is authorized.
    pub fn inner_mut(&mut self) -> (r: &mut S)
        ensures
            *r == old(self).spec_inner(),
            *final(r) == final(self).spec_inner(),
            final(self).spec_value() == old(self).spec_value(),
    {
        &mut self.inner
    }

    /// Sets the `Authorization` header of the request to this service's value, removing
    /// any value it had.
    pub fn authorize<B>(&self, req: &mut Request<B>)
        ensures
            same_but_headers(*final(req), *old(req)),
            final(req).spec_headers()@ == authorized(old(req).spec_headers()@, self.spec_value()),
    {
        req.headers_mut().insert(authorization_name(), self.value.duplicate());
    }
}

} // verus!
