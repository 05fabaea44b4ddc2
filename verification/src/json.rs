//! JSON documents.
//!
//! Reading and writing JSON text is left to `serde_json`. This module holds
//! the mathematical model of a document that the rest of the crate reasons
//! about, and every call into `serde_json` that the crate makes. Each of those
//! calls is a one-line function whose contract is not proved: it says what
//! the sources of `serde_json` show of the function that is called.
//!
//! The contracts assume `serde_json` as this crate builds it: objects kept in
//! key order and numbers held as 64-bit integers or doubles.

use vstd::prelude::*;
use crate::text::ascending;

verus! {

#[verifier::external_type_specification]
#[verifier::external_body]
pub struct ExValue(serde_json::Value);

#[verifier::external_type_specification]
#[verifier::external_body]
#[verifier::reject_recursive_types(K)]
#[verifier::reject_recursive_types(V)]
pub struct ExObject<K, V>(serde_json::Map<K, V>);

/// A JSON document as a mathematical value.
pub enum Json {
    Null,
    Bool(bool),
    /// A number that is held as a 64-bit integer: a whole number from
    /// `i64::MIN` to `u64::MAX` that the text gives without a fraction and
    /// without an exponent, other than `-0`.
    Int(int),
    /// Any other number. It is held as a double and told apart by the bit
    /// pattern of that double.
    Float(int),
    Text(Seq<char>),
    Array(Seq<Json>),
    Object(Map<Seq<char>, Json>),
}

impl Json {
    /// The member `key` of an object; `None` for a missing member and for
    /// anything that is not an object.
    pub open spec fn member(self, key: Seq<char>) -> Option<Json> {
        match self {
            Json::Object(entries) if entries.contains_key(key) => Some(entries[key]),
            _ => None,
        }
    }
}

/// The document that a `serde_json::Value` holds.
pub uninterp spec fn value_model(v: serde_json::Value) -> Json;

/// The members that a `serde_json::Map` holds.
pub uninterp spec fn object_entries(m: serde_json::Map<String, serde_json::Value>) -> Map<
    Seq<char>,
    Json,
>;

/// The document that `serde_json::from_str` reads from a text, `None` where it
/// reports an error.
pub uninterp spec fn json_read(text: Seq<char>) -> Option<Json>;

/// The text that `serde_json::to_string` writes for a document, `None` where
/// it reports an error.
pub uninterp spec fn json_written(j: Json) -> Option<Seq<char>>;

/// The members of an object that has none.
pub open spec fn no_members() -> Map<Seq<char>, Json> {
    Map::empty()
}

/// The documents held by a sequence of values, one for one.
pub open spec fn value_models(items: Seq<serde_json::Value>) -> Seq<Json> {
    Seq::new(items.len(), |i: int| value_model(items[i]))
}

/// Trusted: `Map::clone` clones the underlying map, so the copy holds the same
/// members.
pub assume_specification[ <serde_json::Map<String, serde_json::Value> as Clone>::clone ](
    m: &serde_json::Map<String, serde_json::Value>,
) -> (r: serde_json::Map<String, serde_json::Value>)
    ensures
        object_entries(r) == object_entries(*m),
;

/// Reads a JSON text.
///
/// Trusted: calls `serde_json::from_str::<Value>` and drops the description
/// of a failure. The contract only gives the outcome its name, `json_read`:
/// what is read depends on the text alone.
#[verifier::external_body]
pub(crate) fn read_value(text: &str) -> (r: Option<serde_json::Value>)
    ensures
        match r {
            Some(v) => json_read(text@) == Some(value_model(v)),
            None => json_read(text@) is None,
        },
{
    serde_json::from_str::<serde_json::Value>(text).ok()
}

/// Writes a document as compact JSON text.
///
/// Trusted: calls `serde_json::to_string` and drops the description of a
/// failure. The contract only gives the outcome its name, `json_written`:
/// what is written depends on the document alone.
#[verifier::external_body]
pub(crate) fn write_value(v: &serde_json::Value) -> (r: Option<String>)
    ensures
        match r {
            Some(text) => json_written(value_model(*v)) == Some(text@),
            None => json_written(value_model(*v)) is None,
        },
{
    serde_json::to_string(v).ok()
}

/// Looks a member up by its key.
///
/// Trusted: calls `Value::get` with a string index, which returns the member
/// of that name if the value is an object that has one, and `None` otherwise.
#[verifier::external_body]
pub(crate) fn value_member<'a>(v: &'a serde_json::Value, key: &str) -> (r: Option<
    &'a serde_json::Value,
>)
    ensures
        match r {
            Some(m) => value_model(*v).member(key@) == Some(value_model(*m)),
            None => value_model(*v).member(key@) is None,
        },
{
    v.get(key)
}

/// Trusted: calls `Value::is_null`, true for the JSON `null` only.
#[verifier::external_body]
pub(crate) fn value_is_null(v: &serde_json::Value) -> (r: bool)
    ensures
        r == (value_model(*v) is Null),
{
    v.is_null()
}

/// Trusted: calls `Value::as_bool`, which returns the boolean of a JSON
/// boolean and `None` for anything else.
#[verifier::external_body]
pub(crate) fn value_as_bool(v: &serde_json::Value) -> (r: Option<bool>)
    ensures
        match r {
            Some(b) => value_model(*v) == Json::Bool(b),
            None => !(value_model(*v) is Bool),
        },
{
    v.as_bool()
}

/// Trusted: calls `Value::as_u64`, which returns the number if the value is
/// an integer that is not negative, and `None` for anything else.
#[verifier::external_body]
pub(crate) fn value_as_u64(v: &serde_json::Value) -> (r: Option<u64>)
    ensures
        match r {
            Some(n) => value_model(*v) == Json::Int(n as int),
            None => !(value_model(*v) matches Json::Int(n) && 0 <= n),
        },
{
    v.as_u64()
}

/// Trusted: calls `Value::as_i64`, which returns the number if the value is
/// an integer of at most `i64::MAX`, and `None` for anything else.
#[verifier::external_body]
pub(crate) fn value_as_i64(v: &serde_json::Value) -> (r: Option<i64>)
    ensures
        match r {
            Some(n) => value_model(*v) == Json::Int(n as int),
            None => !(value_model(*v) matches Json::Int(n) && n <= i64::MAX),
        },
{
    v.as_i64()
}

/// Trusted: calls `Value::as_str`, which returns the text of a JSON string
/// and `None` for anything else.
#[verifier::external_body]
pub(crate) fn value_as_str<'a>(v: &'a serde_json::Value) -> (r: Option<&'a str>)
    ensures
        match r {
            Some(s) => value_model(*v) == Json::Text(s@),
            None => !(value_model(*v) is Text),
        },
{
    v.as_str()
}

/// Trusted: calls `Value::as_array`, which returns the elements of a JSON
/// array and `None` for anything else.
#[verifier::external_body]
pub(crate) fn value_as_array<'a>(v: &'a serde_json::Value) -> (r: Option<
    &'a Vec<serde_json::Value>,
>)
    ensures
        match r {
            Some(items) => value_model(*v) == Json::Array(value_models(items@)),
            None => !(value_model(*v) is Array),
        },
{
    v.as_array()
}

/// Trusted: calls `Value::as_object`, which returns the map of a JSON object
/// and `None` for anything else.
#[verifier::external_body]
pub(crate) fn value_as_object<'a>(v: &'a serde_json::Value) -> (r: Option<
    &'a serde_json::Map<String, serde_json::Value>,
>)
    ensures
        match r {
            Some(m) => value_model(*v) == Json::Object(object_entries(*m)),
            None => !(value_model(*v) is Object),
        },
{
    v.as_object()
}

/// The keys of an object, in the order in which `serde_json` walks them.
///
/// Trusted: calls `Map::keys` and copies each key. The map is a `BTreeMap`
/// keyed by `String`, whose keys are walked in sorted order: every key of
/// the object comes, and each comes before those that are greater in the
/// order of strings.
#[verifier::external_body]
pub(crate) fn object_keys(m: &serde_json::Map<String, serde_json::Value>) -> (r: Vec<String>)
    ensures
        ascending(r.deep_view()),
        forall|k: Seq<char>| r.deep_view().contains(k) <==> object_entries(*m).contains_key(k),
{
    m.keys().cloned().collect()
}

/// Trusted: `Value::Null` is the JSON `null`.
#[verifier::external_body]
pub(crate) fn null_value() -> (v: serde_json::Value)
    ensures
        value_model(v) == Json::Null,
{
    serde_json::Value::Null
}

/// Trusted: calls `Value::from(bool)`, which makes a JSON boolean.
#[verifier::external_body]
pub(crate) fn bool_value(b: bool) -> (v: serde_json::Value)
    ensures
        value_model(v) == Json::Bool(b),
{
    serde_json::Value::from(b)
}

/// Trusted: calls `Value::from(u64)`, which makes the JSON integer `n`.
#[verifier::external_body]
pub(crate) fn u64_value(n: u64) -> (v: serde_json::Value)
    ensures
        value_model(v) == Json::Int(n as int),
{
    serde_json::Value::from(n)
}

/// Trusted: calls `Value::from(i64)`, which makes the JSON integer `n`.
#[verifier::external_body]
pub(crate) fn i64_value(n: i64) -> (v: serde_json::Value)
    ensures
        value_model(v) == Json::Int(n as int),
{
    serde_json::Value::from(n)
}

/// Trusted: calls `Value::from(&str)`, which makes a JSON string with a copy
/// of the text.
#[verifier::external_body]
pub(crate) fn text_value(s: &str) -> (v: serde_json::Value)
    ensures
        value_model(v) == Json::Text(s@),
{
    serde_json::Value::from(s)
}

/// Trusted: calls `Value::from(Vec<Value>)`, which makes a JSON array of the
/// elements in their order.
#[verifier::external_body]
pub(crate) fn array_value(items: Vec<serde_json::Value>) -> (v: serde_json::Value)
    ensures
        value_model(v) == Json::Array(value_models(items@)),
{
    serde_json::Value::from(items)
}

/// Trusted: calls `Value::from(Map)`, which makes a JSON object of the map.
#[verifier::external_body]
pub(crate) fn object_value(m: serde_json::Map<String, serde_json::Value>) -> (v:
    serde_json::Value)
    ensures
        value_model(v) == Json::Object(object_entries(m)),
{
    serde_json::Value::from(m)
}

/// Trusted: calls `Map::new`, which makes a map without members.
#[verifier::external_body]
pub(crate) fn new_object() -> (m: serde_json::Map<String, serde_json::Value>)
    ensures
        object_entries(m) == no_members(),
{
    serde_json::Map::new()
}

/// Trusted: calls `Map::insert`, which adds the member, or replaces the value
/// of a member that has the same key.
#[verifier::external_body]
pub(crate) fn insert_member(
    m: &mut serde_json::Map<String, serde_json::Value>,
    key: &str,
    value: serde_json::Value,
)
    ensures
        object_entries(*final(m)) == object_entries(*old(m)).insert(key@, value_model(value)),
{
    m.insert(key.to_owned(), value);
}

} // verus!
