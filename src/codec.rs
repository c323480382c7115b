//! The body encodings that requests and responses use: JSON, URL-encoded forms, UTF-8 text.

use vstd::prelude::*;

verus! {

#[verifier::external_type_specification]
#[verifier::external_body]
pub struct ExJsonValue(serde_json::Value);

#[verifier::external_type_specification]
#[verifier::external_body]
pub struct ExJsonError(serde_json::Error);

#[verifier::external_type_specification]
#[verifier::external_body]
pub struct ExFormEncodeError(serde_urlencoded::ser::Error);

#[verifier::external_type_specification]
#[verifier::external_body]
pub struct ExFormDecodeError(serde_urlencoded::de::Error);

#[verifier::external_type_specification]
#[verifier::external_body]
pub struct ExFromUtf8Error(std::string::FromUtf8Error);

/// Relies on `String::from_utf8`: the text when the bytes are valid UTF-8, an error otherwise.
pub assume_specification[ String::from_utf8 ](vec: Vec<u8>) -> (r: Result<
    String,
    std::string::FromUtf8Error,
>)
    ensures
        r is Ok <==> vstd::utf8::valid_utf8(vec@),
        r is Ok ==> r->Ok_0@ == vstd::utf8::decode_utf8(vec@),
;

/// Whether serde_json reads the bytes as one JSON document.
pub uninterp spec fn json_accepts(b: Seq<u8>) -> bool;

/// The text that serde_urlencoded writes for a list of key/value pairs, if it writes one.
pub uninterp spec fn form_text(pairs: Seq<(Seq<char>, Seq<char>)>) -> Option<Seq<char>>;

/// The key/value pairs that serde_urlencoded reads from the bytes, if it reads them.
pub uninterp spec fn form_pairs(b: Seq<u8>) -> Option<Seq<(Seq<char>, Seq<char>)>>;

pub open spec fn pair_views(pairs: Seq<(String, String)>) -> Seq<(Seq<char>, Seq<char>)> {
    pairs.map_values(|p: (String, String)| (p.0@, p.1@))
}

/// The JSON text that serde_json writes for a value.
pub uninterp spec fn json_text(v: serde_json::Value) -> Seq<u8>;

/// The JSON document that serde_json reads from bytes it accepts.
pub uninterp spec fn json_value(b: Seq<u8>) -> serde_json::Value;

/// Relies on `serde_json::to_vec`: it fails only where a `Serialize` impl fails or a map
/// key is no string, which a `Value` never does; the text depends on the value alone.
#[verifier::external_body]
pub(crate) fn json_to_vec(value: &serde_json::Value) -> (r: Result<Vec<u8>, serde_json::Error>)
    ensures
        r is Ok,
        r->Ok_0@ == json_text(*value),
{
    serde_json::to_vec(value)
}

/// Relies on `serde_json::from_slice`: a JSON document read from the bytes, which either
/// form one or not.
#[verifier::external_body]
pub(crate) fn json_from_slice(b: &[u8]) -> (r: Result<serde_json::Value, serde_json::Error>)
    ensures
        r is Ok <==> json_accepts(b@),
        r is Ok ==> r->Ok_0 == json_value(b@),
{
    serde_json::from_slice(b)
}

/// Relies on `serde_urlencoded::to_string` on a list of string pairs.
#[verifier::external_body]
pub(crate) fn form_to_string(pairs: &Vec<(String, String)>) -> (r: Result<
    String,
    serde_urlencoded::ser::Error,
>)
    ensures
        r is Ok <==> form_text(pair_views(pairs@)) is Some,
        r is Ok ==> r->Ok_0@ == form_text(pair_views(pairs@))->0,
{
    serde_urlencoded::to_string(pairs)
}

/// Relies on `serde_urlencoded::from_bytes` into a list of string pairs.
#[verifier::external_body]
pub(crate) fn form_from_bytes(b: &[u8]) -> (r: Result<
    Vec<(String, String)>,
    serde_urlencoded::de::Error,
>)
    ensures
        r is Ok <==> form_pairs(b@) is Some,
        r is Ok ==> pair_views(r->Ok_0@) == form_pairs(b@)->0,
{
    serde_urlencoded::from_bytes(b)
}

} // verus!
