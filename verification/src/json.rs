use vstd::prelude::*;

use crate::errors::ApiError;

verus! {

#[verifier::external_type_specification]
#[verifier::external_body]
pub struct ExValue(serde_json::Value);

#[verifier::external_type_specification]
#[verifier::external_body]
pub struct ExJsonError(serde_json::Error);

/// Whether `serde_json::from_str::<Value>` accepts the text as one JSON
/// document. The verdict is a function of the text alone; the grammar is
/// not written out here, only named.
pub uninterp spec fn json_parses(s: Seq<char>) -> bool;

/// Relies on `serde_json::from_str::<Value>`: parses one JSON document
/// out of the text, or reports why it is not one; whether it succeeds
/// depends on the text alone.
#[verifier::external_body]
pub(crate) fn parse_json(body: &str) -> (r: Result<serde_json::Value, serde_json::Error>)
    ensures
        (r is Ok) == json_parses(body@),
{
    serde_json::from_str(body)
}

/// Relies on `serde_json::Value::get` and `Value::as_str`: the string
/// value under object field `key`, where the value is an object with
/// such a string field.
#[verifier::external_body]
pub(crate) fn json_str_field(v: &serde_json::Value, key: &str) -> (r: Option<String>) {
    v.get(key).and_then(|f| f.as_str()).map(|s| s.to_owned())
}

/// Relies on `serde_json::Value::as_array`: the elements, where the
/// value is an array.
#[verifier::external_body]
pub(crate) fn json_as_array(v: &serde_json::Value) -> (r: Option<Vec<serde_json::Value>>) {
    v.as_array().map(|a| a.to_vec())
}

/// Relies on `serde_json::Value::get` and `Value::as_i64`: the integral
/// value of the first element, where the value is an array whose first
/// element is a JSON number representable as `i64`.
#[verifier::external_body]
pub(crate) fn json_first_i64(v: &serde_json::Value) -> (r: Option<i64>) {
    v.get(0).and_then(|f| f.as_i64())
}

/// Maps the outcome of JSON parsing onto the library's error type: a
/// parsed value passes through unchanged, a parse failure is a malformed
/// response.
pub fn response_from_parse(parsed: Result<serde_json::Value, serde_json::Error>) -> (r: Result<
    serde_json::Value,
    ApiError,
>)
    ensures
        parsed matches Ok(v) ==> (r matches Ok(rv) && rv == v),
        parsed is Err ==> (r matches Err(e) && e is MalformedResponse),
{
    match parsed {
        Ok(v) => Ok(v),
        Err(_) => Err(ApiError::MalformedResponse),
    }
}

/// Parses a response body: success exactly on the texts the JSON parser
/// accepts, and a failure is surfaced only as a malformed response.
pub fn parse_response(body: &str) -> (r: Result<serde_json::Value, ApiError>)
    ensures
        (r is Ok) == json_parses(body@),
        r matches Err(e) ==> e is MalformedResponse,
{
    response_from_parse(parse_json(body))
}

} // verus!
