//! A request builder bound to the transport that will send the request.
//!
//! The builder collects method, target, version, headers and extensions. The first
//! invalid part turns it into an error that later calls keep; the error surfaces when
//! the builder is finished with a body.

use vstd::prelude::*;
use vstd::string::StringSliceAdditionalSpecFns;

use crate::codec::{form_text, form_to_string, json_text, json_to_vec, pair_views};
use crate::header::{
    ascii_lowercase, is_header_name, is_header_value, is_token_char, is_visible_ascii,
    lemma_visible_ascii_value, without, EntryView, HeaderMap, HeaderName, HeaderValue,
};
use crate::request::{Request, Version};

verus! {

/// Whether the text parses as a URI under the http crate's grammar.
pub uninterp spec fn uri_parses(s: Seq<char>) -> bool;

/// Relies on `http::Uri::try_from(&str)`: whether the text parses as a URI, which
/// depends on the text alone.
#[verifier::external_body]
fn http_uri_ok(s: &str) -> (r: bool)
    ensures
        r == uri_parses(s@),
{
    http::Uri::try_from(s).is_ok()
}

/// A request method: a non-empty token, case kept.
pub open spec fn is_method(s: Seq<char>) -> bool {
    &&& s.len() > 0
    &&& forall|i: int| 0 <= i < s.len() ==> is_token_char(#[trigger] s[i])
}

/// Relies on `http::Method::from_bytes`: it accepts exactly the non-empty tokens.
#[verifier::external_body]
fn http_method_ok(s: &str) -> (r: bool)
    ensures
        r == is_method(s@),
{
    http::Method::from_bytes(s.as_bytes()).is_ok()
}

/// Why a request could not be built.
#[derive(Clone, Copy, Debug, PartialEq, Eq, Structural)]
pub enum BuildError {
    InvalidMethod,
    InvalidUri,
    InvalidHeaderName,
    InvalidHeaderValue,
}

/// Why a body could not be set: the request was malformed, or the value did not encode.
#[derive(Debug)]
pub enum SetBodyError<E> {
    Body(BuildError),
    Encode(E),
}

/// What a builder holds while no part has failed.
pub struct PartsView {
    pub method: Seq<char>,
    pub uri: Seq<char>,
    pub version: Version,
    pub headers: Seq<EntryView>,
}

pub type BuilderView = Result<PartsView, BuildError>;

/// A fresh builder: `GET /` over HTTP/1.1 with no headers.
pub open spec fn initial_parts() -> PartsView {
    PartsView {
        method: "GET"@,
        uri: "/"@,
        version: Version::Http11,
        headers: Seq::empty(),
    }
}

pub open spec fn with_method(b: BuilderView, m: Seq<char>) -> BuilderView {
    match b {
        Ok(p) => if is_method(m) {
            Ok(PartsView { method: m, uri: p.uri, version: p.version, headers: p.headers })
        } else {
            Err(BuildError::InvalidMethod)
        },
        Err(e) => Err(e),
    }
}

pub open spec fn with_uri(b: BuilderView, u: Seq<char>) -> BuilderView {
    match b {
        Ok(p) => if uri_parses(u) {
            Ok(PartsView { method: p.method, uri: u, version: p.version, headers: p.headers })
        } else {
            Err(BuildError::InvalidUri)
        },
        Err(e) => Err(e),
    }
}

pub open spec fn with_version(b: BuilderView, v: Version) -> BuilderView {
    match b {
        Ok(p) => Ok(PartsView { method: p.method, uri: p.uri, version: v, headers: p.headers }),
        Err(e) => Err(e),
    }
}

/// Appends a header line; the name is checked before the value.
pub open spec fn with_header(b: BuilderView, k: Seq<char>, v: Seq<u8>) -> BuilderView {
    match b {
        Ok(p) => if !is_header_name(k) {
            Err(BuildError::InvalidHeaderName)
        } else if !is_header_value(v) {
            Err(BuildError::InvalidHeaderValue)
        } else {
            Ok(
                PartsView {
                    method: p.method,
                    uri: p.uri,
                    version: p.version,
                    headers: p.headers.push((ascii_lowercase(k), (v, false))),
                },
            )
        },
        Err(e) => Err(e),
    }
}

/// The headers after a body encoding has set its content type, replacing any earlier one.
pub open spec fn with_content_type(headers: Seq<EntryView>, mime: Seq<char>) -> Seq<EntryView> {
    without(headers, "content-type"@).push(
        ("content-type"@, (vstd::utf8::encode_utf8(mime), false)),
    )
}

/// The parts once a body encoding has set its content type.
pub open spec fn with_body_type(p: PartsView, mime: Seq<char>) -> PartsView {
    PartsView {
        method: p.method,
        uri: p.uri,
        version: p.version,
        headers: with_content_type(p.headers, mime),
    }
}

pub open spec fn json_mime() -> Seq<char> {
    "application/json"@
}

pub open spec fn form_mime() -> Seq<char> {
    "application/x-www-form-urlencoded"@
}

/// Whether a request holds exactly what the builder collected, and the given body.
pub open spec fn request_from<B>(req: Request<B>, p: PartsView, body: B) -> bool {
    &&& req.spec_method() == p.method
    &&& req.spec_uri() == p.uri
    &&& req.spec_version() == p.version
    &&& req.spec_headers()@ == p.headers
    &&& req.spec_body() == body
}

/// One call on a builder, as the contracts see it.
pub enum BuilderStep {
    Method(Seq<char>),
    Uri(Seq<char>),
    Version(Version),
    Header(Seq<char>, Seq<u8>),
    Extension,
}

pub open spec fn step(b: BuilderView, s: BuilderStep) -> BuilderView {
    match s {
        BuilderStep::Method(m) => with_method(b, m),
        BuilderStep::Uri(u) => with_uri(b, u),
        BuilderStep::Version(v) => with_version(b, v),
        BuilderStep::Header(k, v) => with_header(b, k, v),
        BuilderStep::Extension => b,
    }
}

/// The builder after the calls in `steps`, first to last.
pub open spec fn run_steps(b: BuilderView, steps: Seq<BuilderStep>) -> BuilderView
    decreases steps.len(),
{
    if steps.len() == 0 {
        b
    } else {
        step(run_steps(b, steps.drop_last()), steps.last())
    }
}

/// A builder on which the method was never set keeps `GET`, whatever else was set; a
/// request it builds without a body has `GET` as method and the empty body.
pub proof fn lemma_build_defaults(steps: Seq<BuilderStep>, req: Request<()>)
    requires
        forall|i: int| 0 <= i < steps.len() ==> !(#[trigger] steps[i] is Method),
        run_steps(Ok(initial_parts()), steps) is Ok,
        request_from(req, run_steps(Ok(initial_parts()), steps)->Ok_0, ()),
    ensures
        req.spec_method() == "GET"@,
        req.spec_body() == (),
{
    lemma_method_kept(Ok(initial_parts()), steps);
}

/// Steps other than `Method` keep the method of a builder that has not failed.
pub proof fn lemma_method_kept(b: BuilderView, steps: Seq<BuilderStep>)
    requires
        b is Ok,
        forall|i: int| 0 <= i < steps.len() ==> !(#[trigger] steps[i] is Method),
    ensures
        run_steps(b, steps) is Ok ==> run_steps(b, steps)->Ok_0.method == b->Ok_0.method,
    decreases steps.len(),
{
    if steps.len() > 0 {
        let init = steps.drop_last();
        assert forall|i: int| 0 <= i < init.len() implies !(#[trigger] init[i] is Method) by {
            assert(init[i] == steps[i]);
        }
        lemma_method_kept(b, init);
        assert(!(steps[steps.len() - 1] is Method));
    }
}

/// Once a part is invalid, later calls keep that error.
pub proof fn lemma_error_kept(e: BuildError, steps: Seq<BuilderStep>)
    ensures
        run_steps(Err(e), steps) == Err::<PartsView, BuildError>(e),
    decreases steps.len(),
{
    if steps.len() > 0 {
        lemma_error_kept(e, steps.drop_last());
    }
}

struct Parts {
    method: String,
    uri: String,
    version: Version,
    headers: HeaderMap,
    extensions: http::Extensions,
}

impl Parts {
    closed spec fn view(&self) -> PartsView {
        PartsView {
            method: self.method@,
            uri: self.uri@,
            version: self.version,
            headers: self.headers@,
        }
    }
}

/// A request builder holding the transport that will send the request.
pub struct ClientRequestBuilder<'a, S> {
    service: &'a mut S,
    state: Result<Parts, BuildError>,
}

impl<'a, S> View for ClientRequestBuilder<'a, S> {
    type V = BuilderView;

    closed spec fn view(&self) -> BuilderView {
        match self.state {
            Ok(p) => Ok(p.view()),
            Err(e) => Err(e),
        }
    }
}

/// The name `content-type`.
fn content_type_name() -> (r: HeaderName)
    ensures
        r@ == "content-type"@,
{
    proof {
        reveal_strlit("content-type");
        assert(ascii_lowercase("content-type"@) =~= "content-type"@);
    }
    HeaderName::from_lowercase("content-type")
}

/// The value for a media type written in visible ASCII.
fn mime_value(mime: &str) -> (r: HeaderValue)
    requires
        is_visible_ascii(mime@),
    ensures
        r@ == (vstd::utf8::encode_utf8(mime@), false),
{
    proof {
        lemma_visible_ascii_value(mime@);
    }
    HeaderValue::from_text(mime).unwrap()
}

impl<'a, S> ClientRequestBuilder<'a, S> {
    /// Sets the method; by default it is `GET`.
    pub fn method(self, method: &str) -> (r: Self)
        ensures
            r@ == with_method(self@, method@),
    {
        let ClientRequestBuilder { service, state } = self;
        let state = match state {
            Ok(p) => if http_method_ok(method) {
                Ok(Parts { method: method.to_owned(), ..p })
            } else {
                Err(BuildError::InvalidMethod)
            },
            Err(e) => Err(e),
        };
        ClientRequestBuilder { service, state }
    }

    /// Sets the target URI; by default it is `/`.
    pub fn uri(self, uri: &str) -> (r: Self)
        ensures
            r@ == with_uri(self@, uri@),
    {
        let ClientRequestBuilder { service, state } = self;
        let state = match state {
            Ok(p) => if http_uri_ok(uri) {
                Ok(Parts { uri: uri.to_owned(), ..p })
            } else {
                Err(BuildError::InvalidUri)
            },
            Err(e) => Err(e),
        };
        ClientRequestBuilder { service, state }
    }

    /// Sets the protocol version; by default it is HTTP/1.1.
    pub fn version(self, version: Version) -> (r: Self)
        ensures
            r@ == with_version(self@, version),
    {
        let ClientRequestBuilder { service, state } = self;
        let state = match state {
            Ok(p) => Ok(Parts { version, ..p }),
            Err(e) => Err(e),
        };
        ClientRequestBuilder { service, state }
    }

    /// Appends a header line, keeping the values already set under the name.
    pub fn header(self, key: &str, value: &str) -> (r: Self)
        ensures
            r@ == with_header(self@, key@, value.spec_bytes()),
    {
        self.header_bytes(key, value.as_bytes())
    }

    /// Appends a header line whose value is given as bytes.
    pub fn header_bytes(self, key: &str, value: &[u8]) -> (r: Self)
        ensures
            r@ == with_header(self@, key@, value@),
    {
        let ClientRequestBuilder { service, state } = self;
        let state = match state {
            Ok(p) => match HeaderName::from_text(key) {
                Some(name) => match HeaderValue::from_bytes(value) {
                    Some(v) => {
                        let mut p = p;
                        p.headers.append(name, v);
                        Ok(p)
                    },
                    None => Err(BuildError::InvalidHeaderValue),
                },
                None => Err(BuildError::InvalidHeaderName),
            },
            Err(e) => Err(e),
        };
        ClientRequestBuilder { service, state }
    }

    /// The headers collected so far, to change them in place; `None` once a part is invalid.
    pub fn headers_mut(&mut self) -> (r: Option<&mut HeaderMap>)
        ensures
            r is Some <==> old(self)@ is Ok,
            r is Some ==> r->0@ == old(self)@->Ok_0.headers,
            r is Some ==> final(self)@ == Ok::<PartsView, BuildError>(
                PartsView {
                    method: old(self)@->Ok_0.method,
                    uri: old(self)@->Ok_0.uri,
                    version: old(self)@->Ok_0.version,
                    headers: final(r->0)@,
                },
            ),
            r is None ==> final(self)@ == old(self)@,
    {
        match &mut self.state {
            Ok(p) => Some(&mut p.headers),
            Err(_) => None,
        }
    }

    /// The extensions collected so far, to change them in place; `None` once a part is
    /// invalid. The other parts stay as they are.
    pub fn extensions_mut(&mut self) -> (r: Option<&mut http::Extensions>)
        ensures
            r is Some <==> old(self)@ is Ok,
            final(self)@ == old(self)@,
    {
        match &mut self.state {
            Ok(p) => Some(&mut p.extensions),
            Err(_) => None,
        }
    }

    /// Adds a typed extension; the builder's other parts are unchanged.
    pub fn extension<T: Clone + Send + Sync + 'static>(self, extension: T) -> (r: Self)
        ensures
            r@ == self@,
    {
        let ClientRequestBuilder { service, state } = self;
        let state = match state {
            Ok(p) => {
                let mut p = p;
                let _ = p.extensions.insert(extension);
                Ok(p)
            },
            Err(e) => Err(e),
        };
        ClientRequestBuilder { service, state }
    }

    /// Finishes the builder with `body`, or reports the first part that was invalid.
    pub fn body<B>(self, body: B) -> (r: Result<ClientRequest<'a, S, B>, BuildError>)
        ensures
            match self@ {
                Ok(p) => r is Ok && request_from(r->Ok_0.spec_request(), p, body),
                Err(e) => r == Err::<ClientRequest<'a, S, B>, BuildError>(e),
            },
    {
        let ClientRequestBuilder { service, state } = self;
        match state {
            Ok(p) => {
                let request = Request::from_parts(
                    p.method,
                    p.uri,
                    p.version,
                    p.headers,
                    p.extensions,
                    body,
                );
                Ok(ClientRequest { service, request })
            },
            Err(e) => Err(e),
        }
    }

    /// Sets the content type to `mime` and finishes with an encoded body. An encoding
    /// error comes first; then an invalid part of the request.
    fn finish_encoded<B, E>(self, mime: &str, encoded: Result<B, E>) -> (r: Result<
        ClientRequest<'a, S, B>,
        SetBodyError<E>,
    >)
        requires
            is_visible_ascii(mime@),
        ensures
            match encoded {
                Err(e) => r is Err && r->Err_0 == SetBodyError::<E>::Encode(e),
                Ok(body) => match self@ {
                    Err(be) => r is Err && r->Err_0 == SetBodyError::<E>::Body(be),
                    Ok(p) => r is Ok && request_from(
                        r->Ok_0.spec_request(),
                        with_body_type(p, mime@),
                        body,
                    ),
                },
            },
    {
        match encoded {
            Err(e) => Err(SetBodyError::Encode(e)),
            Ok(body) => {
                let ClientRequestBuilder { service, state } = self;
                match state {
                    Ok(p) => {
                        let mut p = p;
                        p.headers.insert(content_type_name(), mime_value(mime));
                        let request = Request::from_parts(
                            p.method,
                            p.uri,
                            p.version,
                            p.headers,
                            p.extensions,
                            body,
                        );
                        Ok(ClientRequest { service, request })
                    },
                    Err(e) => Err(SetBodyError::Body(e)),
                }
            },
        }
    }

    /// Finishes with a JSON body that the caller has encoded, setting the content type
    /// `application/json`.
    pub fn json_encoded<E>(self, encoded: Result<Vec<u8>, E>) -> (r: Result<
        ClientRequest<'a, S, Vec<u8>>,
        SetBodyError<E>,
    >)
        ensures
            match encoded {
                Err(e) => r is Err && r->Err_0 == SetBodyError::<E>::Encode(e),
                Ok(body) => match self@ {
                    Err(be) => r is Err && r->Err_0 == SetBodyError::<E>::Body(be),
                    Ok(p) => r is Ok && request_from(
                        r->Ok_0.spec_request(),
                        with_body_type(p, json_mime()),
                        body,
                    ),
                },
            },
    {
        proof {
            reveal_strlit("application/json");
        }
        self.finish_encoded("application/json", encoded)
    }

    /// Finishes with a form body that the caller has encoded, setting the content type
    /// `application/x-www-form-urlencoded`.
    pub fn form_encoded<E>(self, encoded: Result<String, E>) -> (r: Result<
        ClientRequest<'a, S, String>,
        SetBodyError<E>,
    >)
        ensures
            match encoded {
                Err(e) => r is Err && r->Err_0 == SetBodyError::<E>::Encode(e),
                Ok(body) => match self@ {
                    Err(be) => r is Err && r->Err_0 == SetBodyError::<E>::Body(be),
                    Ok(p) => r is Ok && request_from(
                        r->Ok_0.spec_request(),
                        with_body_type(p, form_mime()),
                        body,
                    ),
                },
            },
    {
        proof {
            reveal_strlit("application/x-www-form-urlencoded");
        }
        self.finish_encoded("application/x-www-form-urlencoded", encoded)
    }

    /// Finishes with the JSON text of `value` as body and the content type
    /// `application/json`; fails only when a part of the request was invalid.
    pub fn json(self, value: &serde_json::Value) -> (r: Result<
        ClientRequest<'a, S, Vec<u8>>,
        SetBodyError<serde_json::Error>,
    >)
        ensures
            match self@ {
                Err(be) => r is Err && r->Err_0 == SetBodyError::<serde_json::Error>::Body(be),
                Ok(p) => r is Ok && request_from(
                    r->Ok_0.spec_request(),
                    with_body_type(p, json_mime()),
                    r->Ok_0.spec_request().spec_body(),
                ) && r->Ok_0.spec_request().spec_body()@ == json_text(*value),
            },
    {
        let encoded = json_to_vec(value);
        self.json_encoded(encoded)
    }

    /// Finishes with the URL-encoded form of `pairs` as body and the content type
    /// `application/x-www-form-urlencoded`.
    pub fn form(self, pairs: &Vec<(String, String)>) -> (r: Result<
        ClientRequest<'a, S, String>,
        SetBodyError<serde_urlencoded::ser::Error>,
    >)
        ensures
            form_text(pair_views(pairs@)) is None ==> r is Err && r->Err_0 is Encode,
            form_text(pair_views(pairs@)) is Some ==> match self@ {
                Err(be) => r is Err && r->Err_0 == SetBodyError::<
                    serde_urlencoded::ser::Error,
                >::Body(be),
                Ok(p) => r is Ok && request_from(
                    r->Ok_0.spec_request(),
                    with_body_type(p, form_mime()),
                    r->Ok_0.spec_request().spec_body(),
                ) && r->Ok_0.spec_request().spec_body()@ == form_text(pair_views(pairs@))->0,
            },
    {
        let encoded = form_to_string(pairs);
        self.form_encoded(encoded)
    }

    /// Finishes the builder with an empty body, or reports the first part that was invalid.
    pub fn build(self) -> (r: Result<ClientRequest<'a, S, ()>, BuildError>)
        ensures
            match self@ {
                Ok(p) => r is Ok && request_from(r->Ok_0.spec_request(), p, ()),
                Err(e) => r == Err::<ClientRequest<'a, S, ()>, BuildError>(e),
            },
    {
        self.body(())
    }
}

/// A request ready to be sent, with the transport that will send it.
pub struct ClientRequest<'a, S, B> {
    service: &'a mut S,
    request: Request<B>,
}

impl<'a, S> ClientRequest<'a, S, ()> {
    /// A builder for a `GET /` request over HTTP/1.1 with no headers.
    pub fn builder(service: &'a mut S) -> (r: ClientRequestBuilder<'a, S>)
        ensures
            r@ == Ok::<PartsView, BuildError>(initial_parts()),
    {
        let p = Parts {
            method: "GET".to_owned(),
            uri: "/".to_owned(),
            version: Version::default_version(),
            headers: HeaderMap::new(),
            extensions: http::Extensions::new(),
        };
        ClientRequestBuilder { service, state: Ok(p) }
    }
}

impl<'a, S, B> ClientRequest<'a, S, B> {
    pub closed spec fn spec_request(&self) -> Request<B> {
        self.request
    }

    pub fn request(&self) -> (r: &Request<B>)
        ensures
            *r == self.spec_request(),
    {
        &self.request
    }

    pub fn into_request(self) -> (r: Request<B>)
        ensures
            r == self.spec_request(),
    {
        self.request
    }

    /// The transport and the request, to hand the one to the other.
    pub fn into_parts(self) -> (r: (&'a mut S, Request<B>))
        ensures
            r.1 == self.spec_request(),
    {
        (self.service, self.request)
    }
}

} // verus!
