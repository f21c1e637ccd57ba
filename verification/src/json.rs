//! JSON values as serde_json parses and reads them.

use vstd::prelude::*;

verus! {

#[verifier::external_type_specification]
#[verifier::external_body]
pub struct ExJsonValue(serde_json::Value);

/// What `serde_json::from_str::<serde_json::Value>` gives for `text`: the JSON value it
/// holds, or `None` when it is not one JSON value.
pub uninterp spec fn json_parse(text: Seq<char>) -> Option<serde_json::Value>;

/// `serde_json::from_str` into a `serde_json::Value`, with the error dropped.
#[verifier::external_body]
pub(crate) fn parse_json_value(text: &str) -> (r: Option<serde_json::Value>)
    ensures
        r == json_parse(text@),
{
    serde_json::from_str::<serde_json::Value>(text).ok()
}

/// What `serde_json::Value::get(key)` followed by `Value::as_str` gives: the text of
/// the member `key` of a JSON object when that member is a string, else `None`.
pub uninterp spec fn json_string_member(v: serde_json::Value, key: Seq<char>) -> Option<Seq<char>>;

/// `Value::get(key)` and `Value::as_str`, the text copied out.
#[verifier::external_body]
pub(crate) fn string_member(v: &serde_json::Value, key: &str) -> (r: Option<String>)
    ensures
        match r {
            Some(s) => json_string_member(*v, key@) == Some(s@),
            None => json_string_member(*v, key@) is None,
        },
{
    v.get(key).and_then(serde_json::Value::as_str).map(|s| s.to_string())
}

} // verus!
