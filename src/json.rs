//! A mathematical model of JSON values, and the calls into `serde_json`
//! that the loader makes, each stated over that model.
use vstd::prelude::*;

verus! {

#[verifier::external_type_specification]
#[verifier::external_body]
pub struct ExValue(serde_json::Value);

#[verifier::external_type_specification]
#[verifier::external_body]
pub struct ExJsonError(serde_json::Error);

/// A JSON value as the loader reads it. `Int` covers every number that
/// `serde_json` holds as an integer; `Float` every other number.
pub enum Json {
    Null,
    Bool(bool),
    Int(int),
    Float,
    Str(Seq<char>),
    Array(Seq<Json>),
    Object(Map<Seq<char>, Json>),
}

/// What a `serde_json::Value` holds.
pub uninterp spec fn json_of(v: serde_json::Value) -> Json;

/// The document that `serde_json::from_str` reads from a text, if the text
/// is a JSON document.
pub uninterp spec fn parse_json(s: Seq<char>) -> Option<Json>;

/// The member `key` of an object; `None` for a missing key or a value that
/// is not an object.
pub open spec fn member(j: Json, key: Seq<char>) -> Option<Json> {
    match j {
        Json::Object(m) => if m.contains_key(key) {
            Some(m[key])
        } else {
            None
        },
        _ => None,
    }
}

/// Relies on `serde_json::from_str::<Value>`: it parses a whole text as one
/// JSON document, and an empty text is no document (it fails at the end of
/// input while expecting a value).
#[verifier::external_body]
pub(crate) fn json_from_str(s: &str) -> (r: Result<serde_json::Value, serde_json::Error>)
    ensures
        match r {
            Ok(v) => parse_json(s@) == Some(json_of(v)),
            Err(_) => parse_json(s@) is None,
        },
        s@.len() == 0 ==> r is Err,
{
    serde_json::from_str(s)
}

/// Relies on `Value::get` with a `&str` index (a lookup in an object, `None`
/// for any other value) and on `Clone` of `Value`, which copies the contents.
#[verifier::external_body]
pub(crate) fn json_member(v: &serde_json::Value, key: &str) -> (r: Option<serde_json::Value>)
    ensures
        match r {
            Some(x) => member(json_of(*v), key@) == Some(json_of(x)),
            None => member(json_of(*v), key@) is None,
        },
{
    v.get(key).cloned()
}

/// Relies on `Value::as_str`: the text of a string value, `None` otherwise.
#[verifier::external_body]
pub(crate) fn json_as_str(v: &serde_json::Value) -> (r: Option<String>)
    ensures
        match r {
            Some(s) => json_of(*v) == Json::Str(s@),
            None => !(json_of(*v) is Str),
        },
{
    v.as_str().map(|s| s.to_string())
}

/// Relies on `Value::as_u64`: the value of an integer that is not negative
/// (`serde_json` holds such an integer as a `u64`), `None` otherwise.
#[verifier::external_body]
pub(crate) fn json_as_u64(v: &serde_json::Value) -> (r: Option<u64>)
    ensures
        match r {
            Some(n) => json_of(*v) == Json::Int(n as int),
            None => !(json_of(*v) matches Json::Int(i) && i >= 0),
        },
{
    v.as_u64()
}

/// Relies on `Value::as_array` and on `Clone` of `Value`: the elements of an
/// array value in order, `None` otherwise.
#[verifier::external_body]
pub(crate) fn json_as_array(v: &serde_json::Value) -> (r: Option<Vec<serde_json::Value>>)
    ensures
        match r {
            Some(xs) => json_of(*v) is Array && json_of(*v)->Array_0.len() == xs@.len()
                && forall|i: int|
                    0 <= i < xs@.len() ==> #[trigger] json_of(*v)->Array_0[i] == json_of(xs@[i]),
            None => !(json_of(*v) is Array),
        },
{
    v.as_array().cloned()
}

/// Relies on `From<&str>` for `Value`: a string value with the same text.
#[verifier::external_body]
pub(crate) fn json_string(s: &str) -> (r: serde_json::Value)
    ensures
        json_of(r) == Json::Str(s@),
{
    serde_json::Value::from(s)
}

} // verus!
