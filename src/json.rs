use serde_json::Value;
use vstd::prelude::*;

use crate::htu::opt_text;

verus! {

/// The member `key` of the JSON object `json`, where it is a string.
pub uninterp spec fn json_text_of(json: Seq<char>, key: Seq<char>) -> Option<Seq<char>>;

/// Whether the member `key` of the JSON object `json` is absent or `null` (also true where
/// `json` is not JSON text).
pub uninterp spec fn json_unset_of(json: Seq<char>, key: Seq<char>) -> bool;

/// The member `key` of the JSON object `json`, where it is an integer that fits `i64`.
pub uninterp spec fn json_i64_of(json: Seq<char>, key: Seq<char>) -> Option<i64>;

/// The member `key` of the JSON object `json`, where it is an integer that fits `u64`.
pub uninterp spec fn json_u64_of(json: Seq<char>, key: Seq<char>) -> Option<u64>;

/// The items of the array member `key` of `json`, each where it is a string.
pub uninterp spec fn json_text_items_of(json: Seq<char>, key: Seq<char>) -> Option<
    Seq<Option<Seq<char>>>,
>;

/// The JSON text of the object member `key` of `json`.
pub uninterp spec fn json_object_of(json: Seq<char>, key: Seq<char>) -> Option<Seq<char>>;

/// Relies on `serde_json::from_str`, `Value::get` and `Value::as_str`.
#[verifier::external_body]
pub(crate) fn json_text(json: &str, key: &str) -> (r: Option<String>)
    ensures
        opt_text(r) == json_text_of(json@, key@),
{
    let v: Value = serde_json::from_str(json).ok()?;
    v.get(key).and_then(Value::as_str).map(str::to_string)
}

/// Relies on `serde_json::from_str`, `Value::get` and `Value::is_null`.
#[verifier::external_body]
pub(crate) fn json_unset(json: &str, key: &str) -> (r: bool)
    ensures
        r == json_unset_of(json@, key@),
{
    serde_json::from_str::<Value>(json).map_or(true, |v| v.get(key).map_or(true, Value::is_null))
}

/// Relies on `serde_json::from_str`, `Value::get` and `Value::as_i64`.
#[verifier::external_body]
pub(crate) fn json_i64(json: &str, key: &str) -> (r: Option<i64>)
    ensures
        r == json_i64_of(json@, key@),
{
    let v: Value = serde_json::from_str(json).ok()?;
    v.get(key).and_then(Value::as_i64)
}

/// Relies on `serde_json::from_str`, `Value::get` and `Value::as_u64`.
#[verifier::external_body]
pub(crate) fn json_u64(json: &str, key: &str) -> (r: Option<u64>)
    ensures
        r == json_u64_of(json@, key@),
{
    let v: Value = serde_json::from_str(json).ok()?;
    v.get(key).and_then(Value::as_u64)
}

pub open spec fn opt_texts(v: Seq<Option<String>>) -> Seq<Option<Seq<char>>> {
    v.map_values(|o: Option<String>| opt_text(o))
}

/// Relies on `serde_json::from_str`, `Value::get`, `Value::as_array` and `Value::as_str`.
#[verifier::external_body]
pub(crate) fn json_text_items(json: &str, key: &str) -> (r: Option<Vec<Option<String>>>)
    ensures
        match r {
            Some(v) => json_text_items_of(json@, key@) == Some(opt_texts(v@)),
            None => json_text_items_of(json@, key@) is None,
        },
{
    let v: Value = serde_json::from_str(json).ok()?;
    let items = v.get(key).and_then(Value::as_array)?;
    Some(items.iter().map(|x| x.as_str().map(str::to_string)).collect())
}

/// Relies on `serde_json::from_str`, `Value::get`, `Value::is_object` and the value's
/// serialisation.
#[verifier::external_body]
pub(crate) fn json_object(json: &str, key: &str) -> (r: Option<String>)
    ensures
        opt_text(r) == json_object_of(json@, key@),
{
    let v: Value = serde_json::from_str(json).ok()?;
    v.get(key).filter(|m| m.is_object()).map(Value::to_string)
}

/// A member read as an optional string: absent or `null` is `None`, a string is `Some`, and
/// any other value is an error.
pub open spec fn opt_text_member(json: Seq<char>, key: Seq<char>) -> Result<Option<Seq<char>>, ()> {
    if json_unset_of(json, key) {
        Ok(None)
    } else {
        match json_text_of(json, key) {
            Some(s) => Ok(Some(s)),
            None => Err(()),
        }
    }
}

/// A member read as an optional `i64`, in the same way.
pub open spec fn opt_i64_member(json: Seq<char>, key: Seq<char>) -> Result<Option<i64>, ()> {
    if json_unset_of(json, key) {
        Ok(None)
    } else {
        match json_i64_of(json, key) {
            Some(n) => Ok(Some(n)),
            None => Err(()),
        }
    }
}

/// A member read as an optional `u64`, in the same way.
pub open spec fn opt_u64_member(json: Seq<char>, key: Seq<char>) -> Result<Option<u64>, ()> {
    if json_unset_of(json, key) {
        Ok(None)
    } else {
        match json_u64_of(json, key) {
            Some(n) => Ok(Some(n)),
            None => Err(()),
        }
    }
}

pub open spec fn opt_result_text(r: Result<Option<String>, ()>) -> Result<Option<Seq<char>>, ()> {
    match r {
        Ok(o) => Ok(opt_text(o)),
        Err(_) => Err(()),
    }
}

/// Reads an optional string member.
pub fn read_opt_text(json: &str, key: &str) -> (r: Result<Option<String>, ()>)
    ensures
        opt_result_text(r) == opt_text_member(json@, key@),
{
    if json_unset(json, key) {
        return Ok(None);
    }
    match json_text(json, key) {
        Some(s) => Ok(Some(s)),
        None => Err(()),
    }
}

/// Reads an optional `i64` member.
pub fn read_opt_i64(json: &str, key: &str) -> (r: Result<Option<i64>, ()>)
    ensures
        r == opt_i64_member(json@, key@),
{
    if json_unset(json, key) {
        return Ok(None);
    }
    match json_i64(json, key) {
        Some(n) => Ok(Some(n)),
        None => Err(()),
    }
}

/// Reads an optional `u64` member.
pub fn read_opt_u64(json: &str, key: &str) -> (r: Result<Option<u64>, ()>)
    ensures
        r == opt_u64_member(json@, key@),
{
    if json_unset(json, key) {
        return Ok(None);
    }
    match json_u64(json, key) {
        Some(n) => Ok(Some(n)),
        None => Err(()),
    }
}

} // verus!
