//! The calls into `serde_json` that the decision logic makes.
//!
//! `serde_json::from_str` reads the bytes of its text through the same
//! reader as `serde_json::from_slice` (its `StrRead` delegates every step to a
//! `SliceRead` over `text.as_bytes()`, skipping only a UTF-8 check that the
//! bytes of a `str` always pass), so the outcome of a parse of a text is
//! stated over the UTF-8 bytes of that text.
use vstd::prelude::*;
use vstd::utf8::encode_utf8;

verus! {

/// `serde_json::Value`, carried through as an opaque value.
#[verifier::external_type_specification]
#[verifier::external_body]
pub struct ExJsonValue(serde_json::Value);

/// `serde_json::Error`, carried through as an opaque value.
#[verifier::external_type_specification]
#[verifier::external_body]
pub struct ExJsonError(serde_json::Error);

/// Whether `serde_json` accepts the bytes as one JSON document (surrounding
/// whitespace allowed).
pub uninterp spec fn json_bytes_accepted(bytes: Seq<u8>) -> bool;

/// The document that `serde_json::from_slice::<Option<Value>>` reads from
/// accepted bytes (`None` for `null`).
pub uninterp spec fn json_optional_value(bytes: Seq<u8>) -> Option<serde_json::Value>;

/// The document that `serde_json::from_slice::<Value>` reads from accepted
/// bytes.
pub uninterp spec fn json_value(bytes: Seq<u8>) -> serde_json::Value;

/// Whether a JSON value is an array (`Value::is_array`).
pub uninterp spec fn json_is_array(value: serde_json::Value) -> bool;

/// `serde_json::from_str::<Option<Value>>`: succeeds exactly when the bytes of
/// the text are accepted, and then gives the document those bytes hold.
#[verifier::external_body]
pub(crate) fn optional_value_from_str(text: &str) -> (r: Result<
    Option<serde_json::Value>,
    serde_json::Error,
>)
    ensures
        r is Ok <==> json_bytes_accepted(encode_utf8(text@)),
        r matches Ok(v) ==> v == json_optional_value(encode_utf8(text@)),
{
    serde_json::from_str(text)
}

/// `serde_json::from_slice::<Option<Value>>`: succeeds exactly when the bytes
/// are accepted, and then gives the document they hold.
#[verifier::external_body]
pub(crate) fn optional_value_from_slice(bytes: &[u8]) -> (r: Result<
    Option<serde_json::Value>,
    serde_json::Error,
>)
    ensures
        r is Ok <==> json_bytes_accepted(bytes@),
        r matches Ok(v) ==> v == json_optional_value(bytes@),
{
    serde_json::from_slice(bytes)
}

/// `serde_json::from_str::<Value>`: succeeds exactly when the bytes of the
/// text are accepted (the same bytes as the optional form), and then gives the
/// document they hold.
#[verifier::external_body]
pub(crate) fn value_from_str(text: &str) -> (r: Result<serde_json::Value, serde_json::Error>)
    ensures
        r is Ok <==> json_bytes_accepted(encode_utf8(text@)),
        r matches Ok(v) ==> v == json_value(encode_utf8(text@)),
{
    serde_json::from_str(text)
}

/// `serde_json::from_slice::<Value>`: succeeds exactly when the bytes are
/// accepted (the same bytes as the optional form), and then gives the document
/// they hold.
#[verifier::external_body]
pub(crate) fn value_from_slice(bytes: &[u8]) -> (r: Result<serde_json::Value, serde_json::Error>)
    ensures
        r is Ok <==> json_bytes_accepted(bytes@),
        r matches Ok(v) ==> v == json_value(bytes@),
{
    serde_json::from_slice(bytes)
}

/// `serde_json::Value::is_array`.
#[verifier::external_body]
pub(crate) fn value_is_array(value: &serde_json::Value) -> (b: bool)
    ensures
        b == json_is_array(*value),
{
    value.is_array()
}

} // verus!
