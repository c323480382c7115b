//! Reading a response body and decoding it as bytes, UTF-8 text, JSON or a form.
//!
//! Reading drains the body; decoding then works on the bytes that were read. A failure
//! tells which of the two steps failed. The decoders never look at the content type.

use vstd::prelude::*;
use vstd::utf8::{decode_utf8, valid_utf8};

use crate::codec::{
    form_from_bytes, form_pairs, json_accepts, json_from_slice, json_value, pair_views,
};

verus! {

/// Wraps a body to read it once, in full.
#[derive(Debug)]
pub struct BodyReader<B>(B);

impl<B> BodyReader<B> {
    pub closed spec fn spec_body(&self) -> B {
        self.0
    }

    /// A reader for the given body.
    pub fn new(body: B) -> (r: Self)
        ensures
            r.spec_body() == body,
    {
        BodyReader(body)
    }

    /// Gives the body up to be read; the reader is gone afterwards.
    pub fn into_inner(self) -> (r: B)
        ensures
            r == self.spec_body(),
    {
        self.0
    }
}

/// Why a body could not be decoded: reading it failed, or its bytes did not decode.
#[derive(Debug)]
pub enum BodyReaderError<E, D> {
    Read(E),
    Decode(D),
}

/// The text of a body that was read in full; only UTF-8 is tried.
pub fn decode_utf8_body<E>(read: Result<Vec<u8>, E>) -> (r: Result<
    String,
    BodyReaderError<E, std::string::FromUtf8Error>,
>)
    ensures
        match read {
            Err(e) => r is Err && r->Err_0 == BodyReaderError::<
                E,
                std::string::FromUtf8Error,
            >::Read(e),
            Ok(b) => if valid_utf8(b@) {
                r is Ok && r->Ok_0@ == decode_utf8(b@)
            } else {
                r is Err && r->Err_0 is Decode
            },
        },
{
    match read {
        Err(e) => Err(BodyReaderError::Read(e)),
        Ok(bytes) => match String::from_utf8(bytes) {
            Ok(text) => Ok(text),
            Err(e) => Err(BodyReaderError::Decode(e)),
        },
    }
}

/// The JSON document of a body that was read in full.
pub fn decode_json_body<E>(read: Result<Vec<u8>, E>) -> (r: Result<
    serde_json::Value,
    BodyReaderError<E, serde_json::Error>,
>)
    ensures
        match read {
            Err(e) => r is Err && r->Err_0 == BodyReaderError::<E, serde_json::Error>::Read(e),
            Ok(b) => if json_accepts(b@) {
                r is Ok && r->Ok_0 == json_value(b@)
            } else {
                r is Err && r->Err_0 is Decode
            },
        },
{
    match read {
        Err(e) => Err(BodyReaderError::Read(e)),
        Ok(bytes) => match json_from_slice(bytes.as_slice()) {
            Ok(value) => Ok(value),
            Err(e) => Err(BodyReaderError::Decode(e)),
        },
    }
}

/// The URL-encoded key/value pairs of a body that was read in full.
pub fn decode_form_body<E>(read: Result<Vec<u8>, E>) -> (r: Result<
    Vec<(String, String)>,
    BodyReaderError<E, serde_urlencoded::de::Error>,
>)
    ensures
        match read {
            Err(e) => r is Err && r->Err_0 == BodyReaderError::<
                E,
                serde_urlencoded::de::Error,
            >::Read(e),
            Ok(b) => match form_pairs(b@) {
                Some(pairs) => r is Ok && pair_views(r->Ok_0@) == pairs,
                None => r is Err && r->Err_0 is Decode,
            },
        },
{
    match read {
        Err(e) => Err(BodyReaderError::Read(e)),
        Ok(bytes) => match form_from_bytes(bytes.as_slice()) {
            Ok(pairs) => Ok(pairs),
            Err(e) => Err(BodyReaderError::Decode(e)),
        },
    }
}

} // verus!
