//! Values of the JSON notation.
use vstd::prelude::*;

verus! {

/// A value of the JSON notation.
#[verifier::external_type_specification]
#[verifier::external_body]
pub struct ExValue(serde_json::Value);

/// What is wrong with a text that is not JSON.
#[verifier::external_type_specification]
#[verifier::external_body]
pub struct ExError(serde_json::Error);

/// The value that `text` writes down in JSON, where it is JSON.
pub uninterp spec fn json_value(text: Seq<char>) -> Option<serde_json::Value>;

/// The JSON string that holds `text`.
pub uninterp spec fn json_string(text: Seq<char>) -> serde_json::Value;

/// `serde_json::from_str` for a value: whether it accepts the text, and which
/// value it makes of it, is a function of the text.
#[verifier::external_body]
pub(crate) fn parse_json(text: &str) -> (r: Result<serde_json::Value, serde_json::Error>)
    ensures
        match r {
            Ok(value) => json_value(text@) == Some(value),
            Err(_) => json_value(text@) is None,
        },
{
    serde_json::from_str(text)
}

/// `serde_json::Value::String`: the value is a function of the text.
#[verifier::external_body]
pub(crate) fn string_value(text: String) -> (r: serde_json::Value)
    ensures
        r == json_string(text@),
{
    serde_json::Value::String(text)
}

} // verus!
