//! JSON values. A value is a `serde_json::Value`; what the contracts know of
//! one is its compact text, as `serde_json` writes it.

use vstd::prelude::*;
use serde_json::Value;

verus! {

#[verifier::external_type_specification]
#[verifier::external_body]
pub struct ExValue(serde_json::Value);

/// The compact text of a JSON value: what `Value::to_string` writes for it.
pub uninterp spec fn json_text(v: Value) -> Seq<char>;

/// What `serde_json::from_str` makes of a text: the compact text of the value
/// read, or `None` where the text is no JSON document.
pub uninterp spec fn json_parse(text: Seq<char>) -> Option<Seq<char>>;

/// The compact text of the JSON string that holds the characters `s`: `s`
/// between double quotes, with the escapes that JSON asks for.
pub uninterp spec fn json_quote(s: Seq<char>) -> Seq<char>;

/// The compact text of the member `key` of the object whose compact text is
/// `object`; `None` where `object` is no object or has no such member.
pub uninterp spec fn json_member(object: Seq<char>, key: Seq<char>) -> Option<Seq<char>>;

/// A compact text that stands for a JSON string. Only strings start with a quote.
pub open spec fn text_is_string(t: Seq<char>) -> bool {
    t.len() > 0 && t[0] == '"'
}

/// A compact text that stands for a JSON object. Only objects start with a brace.
pub open spec fn text_is_object(t: Seq<char>) -> bool {
    t.len() > 0 && t[0] == '{'
}

/// Calls `Value::to_string`, which writes the value in compact form: no white
/// space between tokens, object members in key order.
#[verifier::external_body]
pub(crate) fn json_to_string(v: &Value) -> (s: String)
    ensures
        s@ == json_text(*v),
{
    v.to_string()
}

/// Calls `serde_json::from_str` for a `Value`. The contract names the value
/// read by its compact text and says nothing of the error.
#[verifier::external_body]
pub(crate) fn json_from_str(text: &str) -> (r: Option<Value>)
    ensures
        match r {
            Some(v) => json_parse(text@) == Some(json_text(v)),
            None => json_parse(text@) is None,
        },
{
    match serde_json::from_str::<Value>(text) {
        Ok(v) => Some(v),
        Err(_) => None,
    }
}

/// Calls `Value::is_string`, true of the `String` variant alone, whose compact
/// text is the only one that starts with a double quote.
#[verifier::external_body]
pub(crate) fn json_is_string(v: &Value) -> (b: bool)
    ensures
        b == text_is_string(json_text(*v)),
{
    v.is_string()
}

/// Calls `Value::is_object`, true of the `Object` variant alone, whose compact
/// text is the only one that starts with an opening brace.
#[verifier::external_body]
pub(crate) fn json_is_object(v: &Value) -> (b: bool)
    ensures
        b == text_is_object(json_text(*v)),
{
    v.is_object()
}

/// Calls `Value::from` on a `String`, which makes the `String` variant.
#[verifier::external_body]
pub(crate) fn json_string(s: String) -> (v: Value)
    ensures
        json_text(v) == json_quote(s@),
        text_is_string(json_text(v)),
{
    Value::from(s)
}

/// `Value::clone` copies the whole tree: the copy is the same value.
pub assume_specification[ <serde_json::Value as Clone>::clone ](v: &serde_json::Value) -> (r:
    serde_json::Value)
    ensures
        r == *v,
;

/// Calls `Value::get` with a string key and copies what it finds: the member
/// of that name where the value is an object that has one.
#[verifier::external_body]
pub(crate) fn json_get(v: &Value, key: &str) -> (r: Option<Value>)
    ensures
        match r {
            Some(m) => json_member(json_text(*v), key@) == Some(json_text(m)),
            None => json_member(json_text(*v), key@) is None,
        },
{
    match v.get(key) {
        Some(m) => Some(m.clone()),
        None => None,
    }
}

} // verus!
