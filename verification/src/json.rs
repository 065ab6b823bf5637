//! The JSON values that requests are encoded to and responses are decoded
//! from.
//!
//! JSON text and JSON values are `serde_json`'s. The library holds a value as
//! an opaque `serde_json::Value` and reasons about it through [`json_of`],
//! the mathematical content of the value. Every function in this module that
//! is marked `external_body` makes one call into `serde_json`; its contract is
//! taken on trust from that crate's documentation.

use vstd::prelude::*;

verus! {

/// A JSON number, as far as this library reads one.
pub enum JsonNumber {
    /// A non-negative integer that fits in 64 bits.
    Unsigned(u64),
    /// Any other number: negative, fractional or out of range.
    Other,
}

/// The mathematical content of a JSON value.
pub enum Json {
    Null,
    Bool(bool),
    Number(JsonNumber),
    String(Seq<char>),
    Array(Seq<Json>),
    Object(Map<Seq<char>, Json>),
}

/// The members of a JSON object, by key.
pub type Members = Map<Seq<char>, Json>;

/// `serde_json::Value`, a JSON value. Opaque here: what it holds is
/// [`json_of`] it.
#[verifier::external_type_specification]
#[verifier::external_body]
pub struct ExValue(serde_json::Value);

/// `serde_json::Map`, the members of a JSON object. Opaque here: what it
/// holds is [`members_of`] it.
#[verifier::external_type_specification]
#[verifier::external_body]
#[verifier::reject_recursive_types(K)]
#[verifier::reject_recursive_types(V)]
pub struct ExMap<K, V>(serde_json::Map<K, V>);

/// `serde_json::Error`, why bytes were rejected. The library reads nothing
/// from it.
#[verifier::external_type_specification]
#[verifier::external_body]
pub struct ExError(serde_json::Error);

/// What a `serde_json::Value` holds.
pub uninterp spec fn json_of(value: serde_json::Value) -> Json;

/// The members that a `serde_json::Map` holds, by key.
pub uninterp spec fn members_of(members: serde_json::Map<String, serde_json::Value>) -> Members;

/// The value that `serde_json::from_slice` reads from `bytes`, or `None`
/// where it rejects them.
pub uninterp spec fn json_document(bytes: Seq<u8>) -> Option<Json>;

/// The content of each value of a sequence, in order.
pub open spec fn json_items(items: Seq<serde_json::Value>) -> Seq<Json> {
    Seq::new(items.len(), |i: int| json_of(items[i]))
}

/// Calls `serde_json::Map::new`, which makes a map without members.
#[verifier::external_body]
pub(crate) fn new_members() -> (fresh: serde_json::Map<String, serde_json::Value>)
    ensures
        members_of(fresh) == Members::empty(),
{
    serde_json::Map::new()
}

/// Calls `serde_json::Map::insert`, which sets the member under `key` and
/// replaces the one that was there, if any. All other members stay.
#[verifier::external_body]
pub(crate) fn put_member(
    members: &mut serde_json::Map<String, serde_json::Value>,
    key: &str,
    value: serde_json::Value,
)
    ensures
        members_of(*final(members)) == members_of(*old(members)).insert(key@, json_of(value)),
{
    members.insert(key.to_owned(), value);
}

/// Calls `serde_json::Map::get`, which finds the member under `key`.
#[verifier::external_body]
pub(crate) fn member<'a>(
    members: &'a serde_json::Map<String, serde_json::Value>,
    key: &str,
) -> (found: Option<&'a serde_json::Value>)
    ensures
        match found {
            Some(value) => members_of(*members).contains_key(key@) && members_of(*members)[key@]
                == json_of(*value),
            None => !members_of(*members).contains_key(key@),
        },
{
    members.get(key)
}

/// Wraps a map in `serde_json::Value::Object`.
#[verifier::external_body]
pub(crate) fn object_value(members: serde_json::Map<String, serde_json::Value>) -> (value:
    serde_json::Value)
    ensures
        json_of(value) == Json::Object(members_of(members)),
{
    serde_json::Value::Object(members)
}

/// Calls `serde_json::Value::from` on a string slice, which gives a JSON
/// string of the same characters.
#[verifier::external_body]
pub(crate) fn text_value(text: &str) -> (value: serde_json::Value)
    ensures
        json_of(value) == Json::String(text@),
{
    serde_json::Value::from(text)
}

/// Calls `serde_json::Value::from` on a `u64`, which gives the JSON number
/// of that non-negative integer.
#[verifier::external_body]
pub(crate) fn unsigned_value(n: u64) -> (value: serde_json::Value)
    ensures
        json_of(value) == Json::Number(JsonNumber::Unsigned(n)),
{
    serde_json::Value::from(n)
}

/// Calls `serde_json::Value::as_object`, which gives the members of an
/// object and `None` for any other value.
#[verifier::external_body]
pub(crate) fn as_members(value: &serde_json::Value) -> (found: Option<
    &serde_json::Map<String, serde_json::Value>,
>)
    ensures
        match found {
            Some(members) => json_of(*value) == Json::Object(members_of(*members)),
            None => !(json_of(*value) is Object),
        },
{
    value.as_object()
}

/// Calls `serde_json::Value::as_array`, which gives the items of an array
/// and `None` for any other value.
#[verifier::external_body]
pub(crate) fn as_items(value: &serde_json::Value) -> (found: Option<&Vec<serde_json::Value>>)
    ensures
        match found {
            Some(items) => json_of(*value) == Json::Array(json_items(items@)),
            None => !(json_of(*value) is Array),
        },
{
    value.as_array()
}

/// Calls `serde_json::Value::as_str`, which gives the characters of a string
/// and `None` for any other value.
#[verifier::external_body]
pub(crate) fn as_text(value: &serde_json::Value) -> (found: Option<&str>)
    ensures
        match found {
            Some(text) => json_of(*value) == Json::String(text@),
            None => !(json_of(*value) is String),
        },
{
    value.as_str()
}

/// Calls `serde_json::Value::as_u64`, which gives a number that is a
/// non-negative integer within 64 bits and `None` for any other value.
#[verifier::external_body]
pub(crate) fn as_unsigned(value: &serde_json::Value) -> (found: Option<u64>)
    ensures
        match found {
            Some(n) => json_of(*value) == Json::Number(JsonNumber::Unsigned(n)),
            None => !(json_of(*value) matches Json::Number(JsonNumber::Unsigned(_))),
        },
{
    value.as_u64()
}

/// Calls `serde_json::Value::is_null`, which tells `null` from every other
/// value.
#[verifier::external_body]
pub(crate) fn is_null(value: &serde_json::Value) -> (null: bool)
    ensures
        null == (json_of(*value) is Null),
{
    value.is_null()
}

/// Calls `serde_json::from_slice`, which reads one JSON document from the
/// whole of `bytes`. The outcome depends on the bytes alone.
#[verifier::external_body]
pub(crate) fn read_document(bytes: &[u8]) -> (read: Result<serde_json::Value, serde_json::Error>)
    ensures
        match read {
            Ok(value) => json_document(bytes@) == Some(json_of(value)),
            Err(_) => json_document(bytes@) is None,
        },
{
    serde_json::from_slice(bytes)
}

} // verus!
