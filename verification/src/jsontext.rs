//! Trusted shims over serde_json.
//!
//! Each shim reads one fact out of a JSON document given as text: whether it
//! is an object, a named string field, or one coordinate of the token
//! payload.  Every result is a function of the text (and the keys and
//! indices asked for) alone, so each is tied to an uninterpreted name that
//! the verified parsing code reasons with.  The walk over records and
//! endpoints is verified code looping over these shims.

use vstd::prelude::*;

verus! {

/// Whether the text is a JSON object.
pub uninterp spec fn is_json_object(s: Seq<char>) -> bool;

/// Whether the text is a JSON object every value of which is itself an
/// object.
pub uninterp spec fn is_json_object_of_objects(s: Seq<char>) -> bool;

/// The string value of field `k` of the text, where the text is a JSON
/// object whose field `k` holds a string; `None` otherwise.
pub uninterp spec fn json_field_of(s: Seq<char>, k: Seq<char>) -> Option<Seq<char>>;

/// The string value of field `k` of the first (smallest-keyed) value of the
/// text, where the text is a JSON object whose first value is an object with
/// string field `k`; `None` otherwise.
pub uninterp spec fn json_first_field_of(s: Seq<char>, k: Seq<char>) -> Option<Seq<char>>;

/// The string at `token.expires_at` of the text, when present.
pub uninterp spec fn token_expiry_of(s: Seq<char>) -> Option<Seq<char>>;

/// The length of the array at `token.catalog` of the text, when present.
pub uninterp spec fn catalog_len_of(s: Seq<char>) -> Option<usize>;

/// The string at `token.catalog[i].type` of the text, when present.
pub uninterp spec fn catalog_type_of(s: Seq<char>, i: int) -> Option<Seq<char>>;

/// The length of the array at `token.catalog[i].endpoints`, when present.
pub uninterp spec fn endpoints_len_of(s: Seq<char>, i: int) -> Option<usize>;

/// The string at `token.catalog[i].endpoints[j].<k>`, when present.
pub uninterp spec fn endpoint_field_of(s: Seq<char>, i: int, j: int, k: Seq<char>) -> Option<
    Seq<char>,
>;

/// Relies on `serde_json::from_str` into a JSON object map: it succeeds
/// exactly when the text is a JSON object.
#[verifier::external_body]
pub fn json_is_object(text: &str) -> (r: bool)
    ensures
        r == is_json_object(text@),
{
    serde_json::from_str::<serde_json::Map<String, serde_json::Value>>(text).is_ok()
}

/// Relies on `serde_json::from_str` into a map of JSON object maps: it
/// succeeds exactly when the text is a JSON object of objects.
#[verifier::external_body]
pub fn json_is_object_of_objects(text: &str) -> (r: bool)
    ensures
        r == is_json_object_of_objects(text@),
{
    serde_json::from_str::<
        std::collections::BTreeMap<String, serde_json::Map<String, serde_json::Value>>,
    >(text).is_ok()
}

/// Relies on `serde_json::from_str` into `serde_json::Value`, `Value::get`
/// and `Value::as_str`: the string value of a top-level field.
#[verifier::external_body]
pub fn json_string_field(text: &str, key: &str) -> (r: Option<String>)
    ensures
        r.deep_view() == json_field_of(text@, key@),
{
    let v: serde_json::Value = serde_json::from_str(text).ok()?;
    v.get(key)?.as_str().map(|s| s.to_string())
}

/// Relies on `serde_json::from_str` into an ordered map, `Value::get` and
/// `Value::as_str`: the string value of field `key` of the first
/// (smallest-keyed) entry's value.
#[verifier::external_body]
pub fn json_first_entry_field(text: &str, key: &str) -> (r: Option<String>)
    ensures
        r.deep_view() == json_first_field_of(text@, key@),
{
    let m: std::collections::BTreeMap<String, serde_json::Value> =
        serde_json::from_str(text).ok()?;
    let (_k, v) = m.into_iter().next()?;
    v.get(key)?.as_str().map(|s| s.to_string())
}

/// Relies on `serde_json::from_str`, `Value::get` and `Value::as_str`: the
/// string at `token.expires_at`.
#[verifier::external_body]
pub fn token_expires_at(text: &str) -> (r: Option<String>)
    ensures
        r.deep_view() == token_expiry_of(text@),
{
    let v: serde_json::Value = serde_json::from_str(text).ok()?;
    v.get("token")?.get("expires_at")?.as_str().map(|s| s.to_string())
}

/// Relies on `serde_json::from_str`, `Value::get` and `Value::as_array`: the
/// length of the array at `token.catalog`.
#[verifier::external_body]
pub fn token_catalog_len(text: &str) -> (r: Option<usize>)
    ensures
        r == catalog_len_of(text@),
{
    let v: serde_json::Value = serde_json::from_str(text).ok()?;
    v.get("token")?.get("catalog")?.as_array().map(|a| a.len())
}

/// Relies on `serde_json::from_str`, `Value::get` and `Value::as_str`: the
/// string at `token.catalog[i].type`.
#[verifier::external_body]
pub fn token_catalog_type(text: &str, i: usize) -> (r: Option<String>)
    ensures
        r.deep_view() == catalog_type_of(text@, i as int),
{
    let v: serde_json::Value = serde_json::from_str(text).ok()?;
    v.get("token")?.get("catalog")?.get(i)?.get("type")?.as_str().map(|s| s.to_string())
}

/// Relies on `serde_json::from_str`, `Value::get` and `Value::as_array`: the
/// length of the array at `token.catalog[i].endpoints`.
#[verifier::external_body]
pub fn token_endpoints_len(text: &str, i: usize) -> (r: Option<usize>)
    ensures
        r == endpoints_len_of(text@, i as int),
{
    let v: serde_json::Value = serde_json::from_str(text).ok()?;
    v.get("token")?.get("catalog")?.get(i)?.get("endpoints")?.as_array().map(|a| a.len())
}

/// Relies on `serde_json::from_str`, `Value::get` and `Value::as_str`: the
/// string at `token.catalog[i].endpoints[j].<key>`.
#[verifier::external_body]
pub fn token_endpoint_field(text: &str, i: usize, j: usize, key: &str) -> (r: Option<String>)
    ensures
        r.deep_view() == endpoint_field_of(text@, i as int, j as int, key@),
{
    let v: serde_json::Value = serde_json::from_str(text).ok()?;
    v.get("token")?.get("catalog")?.get(i)?.get("endpoints")?.get(j)?.get(key)?.as_str().map(
        |s| s.to_string(),
    )
}

} // verus!
