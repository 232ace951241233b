//! Access to the JSON tree of a response body, through `serde_json`.
//!
//! A parsed JSON value is opaque here, but its contents have a mathematical
//! model: `json_model` names the tree a `serde_json::Value` holds, and
//! `spec_json_of` names the tree a body string parses to. The envelope logic
//! reads the value only through the small accessors below, whose contracts
//! speak over that model, and validates the extracted plain values itself.

use vstd::prelude::*;

verus! {

/// The mathematical model of a JSON value: what the client can observe of the
/// tree. Numbers carry no content here because the client never reads one.
pub enum SpecJson {
    Null,
    Bool(bool),
    Number,
    Str(Seq<char>),
    Arr(Seq<SpecJson>),
    Obj(Map<Seq<char>, SpecJson>),
}

#[verifier::external_type_specification]
#[verifier::external_body]
pub struct ExValue(serde_json::Value);

#[verifier::external_type_specification]
#[verifier::external_body]
pub struct ExJsonError(serde_json::Error);

/// Whether a string is valid JSON: whether `serde_json::from_str` accepts it.
pub uninterp spec fn json_parses(s: Seq<char>) -> bool;

/// The tree a valid JSON string parses to. Meaningful only where
/// `json_parses` holds; the result depends on the string alone.
pub uninterp spec fn spec_json_of(s: Seq<char>) -> SpecJson;

/// The tree a `serde_json::Value` holds.
pub uninterp spec fn json_model(v: serde_json::Value) -> SpecJson;

/// Relies on `serde_json::from_str`: parses the whole body as one JSON value,
/// succeeding exactly on valid JSON; the parse is a function of the body
/// alone.
#[verifier::external_body]
pub(crate) fn parse_json(s: &str) -> (r: Result<serde_json::Value, serde_json::Error>)
    ensures
        r matches Ok(v) ==> json_parses(s@) && json_model(v) == spec_json_of(s@),
        r is Err ==> !json_parses(s@),
{
    serde_json::from_str(s)
}

/// Relies on `serde_json::Value::get` with a string key: the member of that
/// name when the value is an object that has one, `None` otherwise.
#[verifier::external_body]
pub(crate) fn json_get(v: &serde_json::Value, key: &str) -> (r: Option<serde_json::Value>)
    ensures
        match json_model(*v) {
            SpecJson::Obj(o) => {
                if o.contains_key(key@) {
                    r matches Some(m) && json_model(m) == o[key@]
                } else {
                    r is None
                }
            },
            _ => r is None,
        },
{
    v.get(key).cloned()
}

/// Relies on `serde_json::Value::as_str`: the content of the value when it is
/// a JSON string, `None` otherwise.
#[verifier::external_body]
pub(crate) fn json_str(v: &serde_json::Value) -> (r: Option<String>)
    ensures
        match json_model(*v) {
            SpecJson::Str(s) => r matches Some(x) && x@ == s,
            _ => r is None,
        },
{
    match v.as_str() {
        Some(s) => Some(s.to_owned()),
        None => None,
    }
}

/// Relies on `serde_json::Value::as_array`: the elements of the value, in
/// order, when it is a JSON array, `None` otherwise.
#[verifier::external_body]
pub(crate) fn json_array(v: &serde_json::Value) -> (r: Option<Vec<serde_json::Value>>)
    ensures
        match json_model(*v) {
            SpecJson::Arr(elems) => r matches Some(a) && a@.len() == elems.len()
                && (forall|i: int| 0 <= i < elems.len() ==> json_model(#[trigger] a@[i]) == elems[i]),
            _ => r is None,
        },
{
    v.as_array().cloned()
}

/// Relies on `serde_json::Value::is_null`: whether the value is JSON `null`.
#[verifier::external_body]
pub(crate) fn json_is_null(v: &serde_json::Value) -> (r: bool)
    ensures
        r == (json_model(*v) matches SpecJson::Null),
{
    v.is_null()
}

} // verus!
