//! The JSON operations that the pipeline takes from `serde_json`.
//!
//! Nothing here is proved. Each function below makes one call into
//! `serde_json`, and its contract gives that call's result a name, so that
//! the functions built on top can say exactly what they return.

use vstd::prelude::*;

verus! {

/// `serde_json::Value`, a parsed JSON document or a part of one. Opaque here.
#[verifier::external_type_specification]
#[verifier::external_body]
pub struct ExJsonValue(serde_json::Value);

/// `serde_json::Error`, what the parser or the serializer reports. Opaque here.
#[verifier::external_type_specification]
#[verifier::external_body]
pub struct ExJsonError(serde_json::Error);

/// What `serde_json::from_slice::<Value>` returns for these bytes.
pub uninterp spec fn json_parse(bytes: Seq<u8>) -> Result<serde_json::Value, serde_json::Error>;

/// What `Value::get` returns for a string key: the member of that name where
/// the value is an object that has one.
pub uninterp spec fn json_member(value: serde_json::Value, key: Seq<char>) -> Option<
    serde_json::Value,
>;

/// What `Value::as_str` returns: the characters of a JSON string, nothing for any other value.
pub uninterp spec fn json_text(value: serde_json::Value) -> Option<Seq<char>>;

/// What `Value::is_null` returns.
pub uninterp spec fn json_is_null(value: serde_json::Value) -> bool;

/// What the `Display` of a `serde_json::Error` writes.
pub uninterp spec fn json_error_text(error: serde_json::Error) -> Seq<char>;

/// What `serde_json::to_string` returns for a string slice: the text as a
/// JSON string literal, quotes and escapes included.
pub uninterp spec fn json_string_literal(text: Seq<char>) -> Result<Seq<char>, serde_json::Error>;

/// Calls `serde_json::from_slice` to parse the bytes as one JSON document.
/// The contract only names the result.
#[verifier::external_body]
pub(crate) fn parse_document(bytes: &[u8]) -> (parsed: Result<
    serde_json::Value,
    serde_json::Error,
>)
    ensures
        parsed == json_parse(bytes@),
{
    serde_json::from_slice::<serde_json::Value>(bytes)
}

/// Calls `Value::get` with a string key. The contract only names the result.
#[verifier::external_body]
pub(crate) fn member<'a>(value: &'a serde_json::Value, key: &str) -> (found: Option<
    &'a serde_json::Value,
>)
    ensures
        match found {
            Some(inner) => json_member(*value, key@) == Some(*inner),
            None => json_member(*value, key@) is None,
        },
{
    value.get(key)
}

/// Calls `Value::as_str`. The contract only names the result.
#[verifier::external_body]
pub(crate) fn as_text<'a>(value: &'a serde_json::Value) -> (text: Option<&'a str>)
    ensures
        match text {
            Some(characters) => json_text(*value) == Some(characters@),
            None => json_text(*value) is None,
        },
{
    value.as_str()
}

/// Calls `Value::is_null`. The contract only names the result.
#[verifier::external_body]
pub(crate) fn is_null(value: &serde_json::Value) -> (null: bool)
    ensures
        null == json_is_null(*value),
{
    value.is_null()
}

/// Renders a `serde_json::Error` through its `Display`. The contract only
/// names the result.
#[verifier::external_body]
pub(crate) fn error_detail(error: &serde_json::Error) -> (detail: String)
    ensures
        detail@ == json_error_text(*error),
{
    error.to_string()
}

/// Calls `serde_json::to_string` on a string slice. The contract only names
/// the result, and leaves open whether the call succeeds.
#[verifier::external_body]
pub(crate) fn quote(text: &str) -> (literal: Result<String, serde_json::Error>)
    ensures
        match literal {
            Ok(written) => json_string_literal(text@) == Ok::<Seq<char>, serde_json::Error>(
                written@,
            ),
            Err(error) => json_string_literal(text@) == Err::<Seq<char>, serde_json::Error>(error),
        },
{
    serde_json::to_string(text)
}

} // verus!
