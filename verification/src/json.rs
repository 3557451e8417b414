//! The JSON values of `serde_json` that the library makes itself.

use vstd::prelude::*;

verus! {

/// `serde_json::Value`, a JSON value. The library carries such values and
/// never looks into one.
#[verifier::external_type_specification]
#[verifier::external_body]
pub struct ExJsonValue(serde_json::Value);

/// `serde_json::Error`, why a conversion to or from JSON failed. The library
/// only asks it for its text.
#[verifier::external_type_specification]
#[verifier::external_body]
pub struct ExJsonError(serde_json::Error);

/// The JSON string with the characters `text`: what `serde_json::to_value`
/// makes of a string.
pub uninterp spec fn json_string(text: Seq<char>) -> serde_json::Value;

/// The JSON boolean `flag`: what `serde_json::to_value` makes of a `bool`.
pub uninterp spec fn json_bool(flag: bool) -> serde_json::Value;

/// Calls `serde_json::to_value` on a string. The serializer behind it turns a
/// string into `Value::String` with the same characters and has no failing
/// path for one, so the contract says that the call succeeds with the JSON
/// string of `text`.
#[verifier::external_body]
pub(crate) fn string_to_value(text: String) -> (out: Result<serde_json::Value, serde_json::Error>)
    ensures
        out is Ok,
        out->Ok_0 == json_string(text@),
{
    serde_json::to_value(text)
}

/// Calls `serde_json::to_value` on a `bool`. The serializer behind it turns a
/// `bool` into `Value::Bool` and has no failing path for one, so the contract
/// says that the call succeeds with the JSON boolean of `flag`.
#[verifier::external_body]
pub(crate) fn bool_to_value(flag: bool) -> (out: Result<serde_json::Value, serde_json::Error>)
    ensures
        out is Ok,
        out->Ok_0 == json_bool(flag),
{
    serde_json::to_value(flag)
}

} // verus!
