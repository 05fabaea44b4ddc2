//! Typed values out of JSON documents, and documents out of typed values.
//!
//! A type says in `decoded` which documents it accepts and what each of them
//! denotes, and in `encoded` which document stands for a value. The functions
//! that do the work are proved to compute exactly that.

use vstd::prelude::*;
use crate::text::{ascending, lemma_ascending_unique, lemma_text_before_asymmetric, text_before};
use crate::json::{
    array_value, bool_value, i64_value, insert_member, null_value, object_entries,
    object_keys, object_value, text_value, u64_value, value_as_array, value_as_bool, value_as_i64,
    value_as_object, value_as_str, value_as_u64, value_is_null, value_member, value_model,
    value_models, Json,
};

verus! {

/// A type that is read from a JSON document.
pub trait FromJson: Sized + DeepView {
    /// What the document denotes; `None` if it does not have the shape that
    /// this type asks for.
    spec fn decoded(j: Json) -> Option<<Self as DeepView>::V>;

    /// Reads a value of this type from a document.
    fn from_json(v: &serde_json::Value) -> (r: Option<Self>)
        ensures
            r.deep_view() == Self::decoded(value_model(*v)),
    ;
}

/// A type that is written as a JSON document.
pub trait ToJson: DeepView {
    /// The document that stands for a value.
    spec fn encoded(m: <Self as DeepView>::V) -> Json;

    /// Builds the document that stands for `self`.
    fn to_json(&self) -> (v: serde_json::Value)
        ensures
            value_model(v) == Self::encoded(self.deep_view()),
    ;
}

impl FromJson for bool {
    open spec fn decoded(j: Json) -> Option<bool> {
        match j {
            Json::Bool(b) => Some(b),
            _ => None,
        }
    }

    fn from_json(v: &serde_json::Value) -> (r: Option<bool>) {
        value_as_bool(v)
    }
}

impl FromJson for u64 {
    open spec fn decoded(j: Json) -> Option<u64> {
        match j {
            Json::Int(n) if 0 <= n <= u64::MAX => Some(n as u64),
            _ => None,
        }
    }

    fn from_json(v: &serde_json::Value) -> (r: Option<u64>) {
        value_as_u64(v)
    }
}

impl FromJson for i64 {
    open spec fn decoded(j: Json) -> Option<i64> {
        match j {
            Json::Int(n) if i64::MIN <= n <= i64::MAX => Some(n as i64),
            _ => None,
        }
    }

    fn from_json(v: &serde_json::Value) -> (r: Option<i64>) {
        value_as_i64(v)
    }
}

impl FromJson for u16 {
    open spec fn decoded(j: Json) -> Option<u16> {
        match j {
            Json::Int(n) if 0 <= n <= u16::MAX => Some(n as u16),
            _ => None,
        }
    }

    fn from_json(v: &serde_json::Value) -> (r: Option<u16>) {
        match value_as_u64(v) {
            Some(n) if n <= 0xffff => Some(n as u16),
            _ => None,
        }
    }
}

impl FromJson for u8 {
    open spec fn decoded(j: Json) -> Option<u8> {
        match j {
            Json::Int(n) if 0 <= n <= u8::MAX => Some(n as u8),
            _ => None,
        }
    }

    fn from_json(v: &serde_json::Value) -> (r: Option<u8>) {
        match value_as_u64(v) {
            Some(n) if n <= 0xff => Some(n as u8),
            _ => None,
        }
    }
}

impl FromJson for String {
    open spec fn decoded(j: Json) -> Option<Seq<char>> {
        match j {
            Json::Text(s) => Some(s),
            _ => None,
        }
    }

    fn from_json(v: &serde_json::Value) -> (r: Option<String>) {
        match value_as_str(v) {
            Some(s) => Some(s.to_owned()),
            None => None,
        }
    }
}

/// What the elements of an array denote, if each of them has the shape that
/// `T` asks for.
pub open spec fn decoded_items<T: FromJson>(items: Seq<Json>) -> Option<Seq<T::V>> {
    if forall|i: int| 0 <= i < items.len() ==> (#[trigger] T::decoded(items[i])) is Some {
        Some(Seq::new(items.len(), |i: int| T::decoded(items[i])->0))
    } else {
        None
    }
}

impl<T: FromJson> FromJson for Vec<T> {
    open spec fn decoded(j: Json) -> Option<Seq<T::V>> {
        match j {
            Json::Array(items) => decoded_items::<T>(items),
            _ => None,
        }
    }

    fn from_json(v: &serde_json::Value) -> (r: Option<Vec<T>>) {
        let items = match value_as_array(v) {
            Some(items) => items,
            None => {
                return None;
            },
        };
        let ghost models = value_models(items@);
        let mut out: Vec<T> = Vec::new();
        for i in 0..items.len()
            invariant
                models == value_models(items@),
                value_model(*v) == Json::Array(models),
                out@.len() == i,
                forall|k: int|
                    0 <= k < i ==> #[trigger] T::decoded(models[k]) == Some(out@[k].deep_view()),
        {
            match T::from_json(&items[i]) {
                Some(t) => {
                    out.push(t);
                },
                None => {
                    assert(T::decoded(models[i as int]) is None);
                    return None;
                },
            }
        }
        assert(decoded_items::<T>(models) is Some);
        assert(out.deep_view() =~= decoded_items::<T>(models)->0);
        Some(out)
    }
}

impl<T: FromJson> FromJson for Option<T> {
    open spec fn decoded(j: Json) -> Option<Option<T::V>> {
        if j is Null {
            Some(None)
        } else {
            match T::decoded(j) {
                Some(m) => Some(Some(m)),
                None => None,
            }
        }
    }

    fn from_json(v: &serde_json::Value) -> (r: Option<Option<T>>) {
        if value_is_null(v) {
            Some(None)
        } else {
            match T::from_json(v) {
                Some(t) => Some(Some(t)),
                None => None,
            }
        }
    }
}

/// What a member that must be there denotes.
pub open spec fn field<T: FromJson>(j: Json, key: Seq<char>) -> Option<T::V> {
    match j.member(key) {
        Some(m) => T::decoded(m),
        None => None,
    }
}

/// What a member that may be missing or `null` denotes.
pub open spec fn optional_field<T: FromJson>(j: Json, key: Seq<char>) -> Option<Option<T::V>> {
    match j.member(key) {
        Some(m) => Option::<T>::decoded(m),
        None => Some(None),
    }
}

/// What a member denotes that stands for `default` when it is missing.
pub open spec fn field_or<T: FromJson>(j: Json, key: Seq<char>, default: T::V) -> Option<T::V> {
    match j.member(key) {
        Some(m) => T::decoded(m),
        None => Some(default),
    }
}

/// The members of a member that must be there and be an object.
pub open spec fn object_field(j: Json, key: Seq<char>) -> Option<Map<Seq<char>, Json>> {
    match j.member(key) {
        Some(Json::Object(entries)) => Some(entries),
        _ => None,
    }
}

/// Reads a member that must be there.
pub fn get_field<T: FromJson>(v: &serde_json::Value, key: &str) -> (r: Option<T>)
    ensures
        r.deep_view() == field::<T>(value_model(*v), key@),
{
    match value_member(v, key) {
        Some(m) => T::from_json(m),
        None => None,
    }
}

/// Reads a member that may be missing or `null`.
pub fn get_optional_field<T: FromJson>(v: &serde_json::Value, key: &str) -> (r: Option<Option<T>>)
    ensures
        r.deep_view() == optional_field::<T>(value_model(*v), key@),
{
    match value_member(v, key) {
        Some(m) => Option::<T>::from_json(m),
        None => Some(None),
    }
}

/// Reads a member that stands for `default` when it is missing.
pub fn get_field_or<T: FromJson>(v: &serde_json::Value, key: &str, default: T) -> (r: Option<T>)
    ensures
        r.deep_view() == field_or::<T>(value_model(*v), key@, default.deep_view()),
{
    match value_member(v, key) {
        Some(m) => T::from_json(m),
        None => Some(default),
    }
}

/// A list without items.
pub fn no_items<T: DeepView>() -> (r: Vec<T>)
    ensures
        r.deep_view() == Seq::<T::V>::empty(),
{
    let r: Vec<T> = Vec::new();
    assert(r.deep_view() =~= Seq::<T::V>::empty());
    r
}

/// Reads a member that must be there and be an object, and keeps it as it is.
pub fn get_object_field(v: &serde_json::Value, key: &str) -> (r: Option<
    serde_json::Map<String, serde_json::Value>,
>)
    ensures
        match r {
            Some(m) => object_field(value_model(*v), key@) == Some(object_entries(m)),
            None => object_field(value_model(*v), key@) is None,
        },
{
    match value_member(v, key) {
        Some(m) => match value_as_object(m) {
            Some(entries) => Some(entries.clone()),
            None => None,
        },
        None => None,
    }
}

/// Whether `keys` are the keys of the members of an object in the order in
/// which they are walked: every key, in ascending order.
pub open spec fn walks(keys: Seq<Seq<char>>, entries: Map<Seq<char>, Json>) -> bool {
    &&& ascending(keys)
    &&& forall|k: Seq<char>| keys.contains(k) <==> entries.contains_key(k)
}

/// The keys of the members of an object in the order in which they are
/// walked.
pub open spec fn walk(entries: Map<Seq<char>, Json>) -> Seq<Seq<char>> {
    choose|keys: Seq<Seq<char>>| walks(keys, entries)
}

/// What the members of an object denote as a list of pairs, one pair for each
/// member, in ascending order of the keys, if each member has the shape that
/// `T` asks for.
pub open spec fn decoded_entries<T: FromJson>(entries: Map<Seq<char>, Json>) -> Option<
    Seq<(Seq<char>, T::V)>,
> {
    let keys = walk(entries);
    if walks(keys, entries) && forall|i: int|
        0 <= i < keys.len() ==> (#[trigger] T::decoded(entries[keys[i]])) is Some {
        Some(Seq::new(keys.len(), |i: int| (keys[i], T::decoded(entries[keys[i]])->0)))
    } else {
        None
    }
}

/// A list of keys that walks the members of an object is the walk of that
/// object: there is no other.
pub proof fn lemma_walk_unique(keys: Seq<Seq<char>>, entries: Map<Seq<char>, Json>)
    requires
        walks(keys, entries),
    ensures
        walk(entries) == keys,
{
    lemma_ascending_unique(walk(entries), keys);
}

/// Whether no key comes twice in a list of pairs.
pub open spec fn distinct_keys<V>(pairs: Seq<(Seq<char>, V)>) -> bool {
    forall|a: int, b: int| 0 <= a < b < pairs.len() ==> pairs[a].0 != pairs[b].0
}

/// The pairs that the members of an object denote have keys of their own:
/// none comes twice.
pub proof fn lemma_decoded_entries_distinct<T: FromJson>(entries: Map<Seq<char>, Json>)
    ensures
        decoded_entries::<T>(entries) matches Some(pairs) ==> distinct_keys(pairs),
{
    let keys = walk(entries);
    if decoded_entries::<T>(entries) is Some {
        let pairs = decoded_entries::<T>(entries)->0;
        assert forall|a: int, b: int| 0 <= a < b < pairs.len() implies pairs[a].0
            != pairs[b].0 by {
            assert(text_before(keys[a], keys[b]));
            lemma_text_before_asymmetric(keys[a], keys[b]);
        }
    }
}

/// What a member denotes that must be there and be an object whose members
/// all have the shape that `T` asks for.
pub open spec fn map_field<T: FromJson>(j: Json, key: Seq<char>) -> Option<Seq<(Seq<char>, T::V)>> {
    match object_field(j, key) {
        Some(entries) => decoded_entries::<T>(entries),
        None => None,
    }
}

/// Reads a member that must be there and be an object, as a list of pairs of
/// a key and what its member denotes, in ascending order of the keys. No key
/// comes twice.
pub fn get_map_field<T: FromJson>(v: &serde_json::Value, key: &str) -> (r: Option<
    Vec<(String, T)>,
>)
    ensures
        r.deep_view() == map_field::<T>(value_model(*v), key@),
        r matches Some(pairs) ==> distinct_keys(pairs.deep_view()),
{
    let inner = match value_member(v, key) {
        Some(inner) => inner,
        None => {
            return None;
        },
    };
    let members = match value_as_object(inner) {
        Some(members) => members,
        None => {
            return None;
        },
    };
    let ghost entries = object_entries(*members);
    let keys = object_keys(members);
    let ghost order = keys.deep_view();
    proof {
        lemma_walk_unique(order, entries);
    }
    let mut out: Vec<(String, T)> = Vec::new();
    for i in 0..keys.len()
        invariant
            object_field(value_model(*v), key@) == Some(entries),
            value_model(*inner) == Json::Object(entries),
            keys.deep_view() == order,
            order == walk(entries),
            walks(order, entries),
            forall|k: Seq<char>| order.contains(k) <==> entries.contains_key(k),
            out@.len() == i,
            forall|n: int|
                0 <= n < i ==> #[trigger] T::decoded(entries[order[n]]) == Some(
                    out@[n].1.deep_view(),
                ),
            forall|n: int| 0 <= n < i ==> (#[trigger] out@[n]).0.deep_view() == order[n],
    {
        assert(keys.deep_view()[i as int] == keys@[i as int].deep_view());
        assert(order.contains(order[i as int]));
        let name = keys[i].clone();
        match value_member(inner, name.as_str()) {
            Some(member) => match T::from_json(member) {
                Some(t) => {
                    out.push((name, t));
                },
                None => {
                    assert(T::decoded(entries[order[i as int]]) is None);
                    return None;
                },
            },
            None => {
                return None;
            },
        }
    }
    assert(decoded_entries::<T>(entries) is Some);
    assert(out.deep_view() =~= decoded_entries::<T>(entries)->0);
    proof {
        lemma_decoded_entries_distinct::<T>(entries);
    }
    Some(out)
}

/// The members of an object that may be absent.
pub open spec fn optional_entries(m: Option<serde_json::Map<String, serde_json::Value>>) -> Option<
    Map<Seq<char>, Json>,
> {
    match m {
        Some(members) => Some(object_entries(members)),
        None => None,
    }
}

/// Whether a value is a JSON object.
pub fn is_object(v: &serde_json::Value) -> (r: bool)
    ensures
        r == (value_model(*v) is Object),
{
    value_as_object(v).is_some()
}

impl ToJson for bool {
    open spec fn encoded(m: bool) -> Json {
        Json::Bool(m)
    }

    fn to_json(&self) -> (v: serde_json::Value) {
        bool_value(*self)
    }
}

impl ToJson for u64 {
    open spec fn encoded(m: u64) -> Json {
        Json::Int(m as int)
    }

    fn to_json(&self) -> (v: serde_json::Value) {
        u64_value(*self)
    }
}

impl ToJson for i64 {
    open spec fn encoded(m: i64) -> Json {
        Json::Int(m as int)
    }

    fn to_json(&self) -> (v: serde_json::Value) {
        i64_value(*self)
    }
}

impl ToJson for String {
    open spec fn encoded(m: Seq<char>) -> Json {
        Json::Text(m)
    }

    fn to_json(&self) -> (v: serde_json::Value) {
        text_value(self.as_str())
    }
}

/// The documents that stand for the elements of a sequence, one for one.
pub open spec fn encoded_items<T: ToJson>(items: Seq<T::V>) -> Seq<Json> {
    Seq::new(items.len(), |i: int| T::encoded(items[i]))
}

impl<T: ToJson> ToJson for Vec<T> {
    open spec fn encoded(m: Seq<T::V>) -> Json {
        Json::Array(encoded_items::<T>(m))
    }

    fn to_json(&self) -> (v: serde_json::Value) {
        let mut out: Vec<serde_json::Value> = Vec::new();
        for i in 0..self.len()
            invariant
                out@.len() == i,
                forall|k: int|
                    0 <= k < i ==> #[trigger] value_model(out@[k]) == T::encoded(
                        self@[k].deep_view(),
                    ),
        {
            out.push(self[i].to_json());
        }
        assert(value_models(out@) =~= encoded_items::<T>(self.deep_view()));
        array_value(out)
    }
}

impl<T: ToJson> ToJson for Option<T> {
    open spec fn encoded(m: Option<T::V>) -> Json {
        match m {
            Some(inner) => T::encoded(inner),
            None => Json::Null,
        }
    }

    fn to_json(&self) -> (v: serde_json::Value) {
        match self {
            Some(inner) => inner.to_json(),
            None => null_value(),
        }
    }
}

/// The members of an object after a member that is only written when it has a
/// value.
pub open spec fn with_optional(entries: Map<Seq<char>, Json>, key: Seq<char>, value: Option<Json>)
    -> Map<Seq<char>, Json> {
    match value {
        Some(j) => entries.insert(key, j),
        None => entries,
    }
}

/// The document that stands for a value that may be absent, if it is there.
pub open spec fn encoded_if_some<T: ToJson>(m: Option<T::V>) -> Option<Json> {
    match m {
        Some(inner) => Some(T::encoded(inner)),
        None => None,
    }
}

/// The object with the given members, if they are there.
pub open spec fn object_if_some(m: Option<Map<Seq<char>, Json>>) -> Option<Json> {
    match m {
        Some(entries) => Some(Json::Object(entries)),
        None => None,
    }
}

/// Adds the member `key` to an object under construction.
pub fn put<T: ToJson>(m: &mut serde_json::Map<String, serde_json::Value>, key: &str, value: &T)
    ensures
        object_entries(*final(m)) == object_entries(*old(m)).insert(
            key@,
            T::encoded(value.deep_view()),
        ),
{
    insert_member(m, key, value.to_json());
}

/// Adds the member `key` to an object under construction if it has a value.
pub fn put_if_some<T: ToJson>(
    m: &mut serde_json::Map<String, serde_json::Value>,
    key: &str,
    value: &Option<T>,
)
    ensures
        object_entries(*final(m)) == with_optional(
            object_entries(*old(m)),
            key@,
            encoded_if_some::<T>(value.deep_view()),
        ),
{
    match value {
        Some(inner) => {
            insert_member(m, key, inner.to_json());
        },
        None => {},
    }
}

/// Adds a member that is an object itself to an object under construction,
/// if it has a value.
pub fn put_object_if_some(
    m: &mut serde_json::Map<String, serde_json::Value>,
    key: &str,
    value: &Option<serde_json::Map<String, serde_json::Value>>,
)
    ensures
        object_entries(*final(m)) == with_optional(
            object_entries(*old(m)),
            key@,
            object_if_some(optional_entries(*value)),
        ),
{
    match value {
        Some(inner) => {
            insert_member(m, key, object_value(inner.clone()));
        },
        None => {},
    }
}

} // verus!
