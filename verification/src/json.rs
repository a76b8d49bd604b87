use crate::table::{
    discard, extend, lemma_lookup_discard, lemma_lookup_extend, lemma_lookup_store_other,
    lemma_lookup_store_same, lookup, store, Table,
};
use vstd::prelude::*;

verus! {

/// `serde_json::Value`, a JSON document in memory. What one holds is
/// `json_model` of it.
#[verifier::external_type_specification]
#[verifier::external_body]
pub struct ExValue(serde_json::Value);

/// `serde_json::Map`, the fields of a JSON object in memory. What one holds
/// is `object_model` of it.
#[verifier::external_type_specification]
#[verifier::external_body]
#[verifier::reject_recursive_types(K)]
#[verifier::reject_recursive_types(V)]
pub struct ExMap<K, V>(serde_json::Map<K, V>);

/// `serde_json::Error`, the parser's account of a fault.
#[verifier::external_type_specification]
#[verifier::external_body]
pub struct ExError(serde_json::Error);

/// The mathematical content of a JSON document.
///
/// An object is a table from field names to values, which holds its fields in
/// the order in which they stand in the document.
pub enum Json {
    Null,
    Bool(bool),
    /// A number that is held as an integer: a whole number from the least
    /// `i64` to the greatest `u64`.
    Int(int),
    /// A number that is held in floating point, told apart from the others by
    /// a code that no contract interprets.
    Float(int),
    Str(Seq<char>),
    Array(Seq<Json>),
    Object(Seq<(Seq<char>, Json)>),
}

/// The fields of a JSON object, in their order.
pub type JsonObject = Table<Json>;

/// What a `serde_json::Value` holds.
pub uninterp spec fn json_model(v: serde_json::Value) -> Json;

/// What a `serde_json::Map` holds: its entries in the order in which the map
/// keeps them. With the `preserve_order` feature of `serde_json`, which this
/// crate switches on, that is the order in which their names were first
/// inserted.
pub uninterp spec fn object_model(m: serde_json::Map<String, serde_json::Value>) -> Seq<
    (Seq<char>, Json),
>;

/// What `serde_json::from_str` reads from a text: the document, or nothing
/// where the text is no JSON document.
pub uninterp spec fn parsed_json(text: Seq<char>) -> Option<Json>;

/// What `Value::to_string` writes for a document: its compact JSON text, on
/// one line, with the fields of every object in their order.
pub uninterp spec fn json_text(j: Json) -> Seq<char>;

/// The contents of a vector of JSON values, element by element.
pub open spec fn array_model(a: Seq<serde_json::Value>) -> Seq<Json> {
    Seq::new(a.len(), |i: int| json_model(a[i]))
}

/// The object without fields.
pub open spec fn empty_object() -> JsonObject {
    Seq::empty()
}

/// The value stored under `key`, if the object has such a field.
#[verifier::opaque]
pub open spec fn field(o: JsonObject, key: Seq<char>) -> Option<Json> {
    lookup(o, key)
}

/// The object with `value` stored under `key`, or unchanged where there is no
/// value to store.
#[verifier::opaque]
pub open spec fn set_field(o: JsonObject, key: Seq<char>, value: Option<Json>) -> JsonObject {
    match value {
        Some(j) => store(o, key, j),
        None => o,
    }
}

/// The empty object has no field.
pub broadcast proof fn lemma_field_of_empty(key: Seq<char>)
    ensures
        #[trigger] field(empty_object(), key) == None::<Json>,
{
    reveal(field);
}

/// A field reads as what was last stored under its name.
pub broadcast proof fn lemma_field_of_set_field_same(
    o: JsonObject,
    key: Seq<char>,
    value: Option<Json>,
)
    ensures
        #[trigger] field(set_field(o, key, value), key) == if value is Some {
            value
        } else {
            field(o, key)
        },
{
    reveal(field);
    reveal(set_field);
    if value is Some {
        lemma_lookup_store_same(o, key, value->Some_0);
    }
}

/// Storing under one name leaves the fields of other names as they were.
pub broadcast proof fn lemma_field_of_set_field_other(
    o: JsonObject,
    stored: Seq<char>,
    value: Option<Json>,
    key: Seq<char>,
)
    ensures
        key != stored ==> #[trigger] field(set_field(o, stored, value), key) == field(o, key),
{
    reveal(field);
    reveal(set_field);
    if key != stored && value is Some {
        lemma_lookup_store_other(o, stored, value->Some_0, key);
    }
}

/// A field reads as what was last stored under its name.
pub broadcast proof fn lemma_field_of_store_same(o: JsonObject, key: Seq<char>, value: Json)
    ensures
        #[trigger] field(store(o, key, value), key) == Some(value),
{
    reveal(field);
    lemma_lookup_store_same(o, key, value);
}

/// Storing under one name leaves the fields of other names as they were.
pub broadcast proof fn lemma_field_of_store_other(
    o: JsonObject,
    stored: Seq<char>,
    value: Json,
    key: Seq<char>,
)
    ensures
        key != stored ==> #[trigger] field(store(o, stored, value), key) == field(o, key),
{
    reveal(field);
    if key != stored {
        lemma_lookup_store_other(o, stored, value, key);
    }
}

/// A field of an extended object reads as in the object that was stored into
/// it where that has the field, and as before otherwise.
pub broadcast proof fn lemma_field_of_extend(a: JsonObject, b: JsonObject, key: Seq<char>)
    ensures
        #[trigger] field(extend(a, b), key) == if field(b, key) is Some {
            field(b, key)
        } else {
            field(a, key)
        },
{
    reveal(field);
    lemma_lookup_extend(a, b, key);
}

/// A field that was discarded is absent, and the others read as before.
pub broadcast proof fn lemma_field_of_discard(o: JsonObject, discarded: Seq<char>, key: Seq<char>)
    ensures
        #[trigger] field(discard(o, discarded), key) == if key == discarded {
            None
        } else {
            field(o, key)
        },
{
    reveal(field);
    lemma_lookup_discard(o, discarded, key);
}

/// `Value::as_object`: the map inside a JSON object, nothing for any other
/// value.
#[verifier::external_body]
pub(crate) fn value_as_object(v: &serde_json::Value) -> (r: Option<
    &serde_json::Map<String, serde_json::Value>,
>)
    ensures
        match json_model(*v) {
            Json::Object(o) => r matches Some(m) && object_model(*m) == o,
            _ => r is None,
        },
{
    v.as_object()
}

/// `Value::as_array`: the elements of a JSON array, nothing for any other value.
#[verifier::external_body]
pub(crate) fn value_as_array(v: &serde_json::Value) -> (r: Option<&Vec<serde_json::Value>>)
    ensures
        match json_model(*v) {
            Json::Array(s) => r matches Some(a) && array_model(a@) == s,
            _ => r is None,
        },
{
    v.as_array()
}

/// `Value::as_str`: the text of a JSON string, nothing for any other value.
#[verifier::external_body]
pub(crate) fn value_as_str(v: &serde_json::Value) -> (r: Option<&str>)
    ensures
        match json_model(*v) {
            Json::Str(s) => r matches Some(t) && t@ == s,
            _ => r is None,
        },
{
    v.as_str()
}

/// `Value::as_bool`: the truth value of a JSON boolean, nothing for any other
/// value.
#[verifier::external_body]
pub(crate) fn value_as_bool(v: &serde_json::Value) -> (r: Option<bool>)
    ensures
        r == (match json_model(*v) {
            Json::Bool(b) => Some(b),
            _ => None::<bool>,
        }),
{
    v.as_bool()
}

/// `Value::as_i64`: the value of a number that is held as an integer and fits
/// `i64`, nothing for any other value.
#[verifier::external_body]
pub(crate) fn value_as_i64(v: &serde_json::Value) -> (r: Option<i64>)
    ensures
        match json_model(*v) {
            Json::Int(i) => if i64::MIN <= i <= i64::MAX {
                r matches Some(x) && x == i
            } else {
                r is None
            },
            _ => r is None,
        },
{
    v.as_i64()
}

/// `Value::as_u64`: the value of a number that is held as an integer and is
/// not negative, nothing for any other value.
#[verifier::external_body]
pub(crate) fn value_as_u64(v: &serde_json::Value) -> (r: Option<u64>)
    ensures
        match json_model(*v) {
            Json::Int(i) => if 0 <= i <= u64::MAX {
                r matches Some(x) && x == i
            } else {
                r is None
            },
            _ => r is None,
        },
{
    v.as_u64()
}

/// `Value::is_null`: whether the value is JSON `null`.
#[verifier::external_body]
pub(crate) fn value_is_null(v: &serde_json::Value) -> (r: bool)
    ensures
        r == (json_model(*v) is Null),
{
    v.is_null()
}

/// `Value::clone`: the copy holds what the value holds.
pub assume_specification[ <serde_json::Value as Clone>::clone ](v: &serde_json::Value) -> (r:
    serde_json::Value)
    ensures
        json_model(r) == json_model(*v),
;

/// `Value::Null`.
#[verifier::external_body]
pub(crate) fn value_null() -> (r: serde_json::Value)
    ensures
        json_model(r) == Json::Null,
{
    serde_json::Value::Null
}

/// `Value::Bool`.
#[verifier::external_body]
pub(crate) fn value_bool(b: bool) -> (r: serde_json::Value)
    ensures
        json_model(r) == Json::Bool(b),
{
    serde_json::Value::Bool(b)
}

/// `Value::from` on an `i64`: the number, held as an integer.
#[verifier::external_body]
pub(crate) fn value_i64(i: i64) -> (r: serde_json::Value)
    ensures
        json_model(r) == Json::Int(i as int),
{
    serde_json::Value::from(i)
}

/// `Value::from` on a `u64`: the number, held as an integer.
#[verifier::external_body]
pub(crate) fn value_u64(u: u64) -> (r: serde_json::Value)
    ensures
        json_model(r) == Json::Int(u as int),
{
    serde_json::Value::from(u)
}

/// `Value::String`.
#[verifier::external_body]
pub(crate) fn value_string(s: String) -> (r: serde_json::Value)
    ensures
        json_model(r) == Json::Str(s@),
{
    serde_json::Value::String(s)
}

/// `Value::Array`.
#[verifier::external_body]
pub(crate) fn value_array(a: Vec<serde_json::Value>) -> (r: serde_json::Value)
    ensures
        json_model(r) == Json::Array(array_model(a@)),
{
    serde_json::Value::Array(a)
}

/// `Value::Object`.
#[verifier::external_body]
pub(crate) fn value_object(m: serde_json::Map<String, serde_json::Value>) -> (r: serde_json::Value)
    ensures
        json_model(r) == Json::Object(object_model(m)),
{
    serde_json::Value::Object(m)
}

/// `Map::new`: a map without fields.
#[verifier::external_body]
pub(crate) fn object_new() -> (r: serde_json::Map<String, serde_json::Value>)
    ensures
        object_model(r) == empty_object(),
{
    serde_json::Map::new()
}

/// `Map::get`: the value stored under the key, if there is one.
#[verifier::external_body]
pub(crate) fn object_get<'a>(
    m: &'a serde_json::Map<String, serde_json::Value>,
    key: &str,
) -> (r: Option<&'a serde_json::Value>)
    ensures
        match r {
            Some(x) => field(object_model(*m), key@) == Some(json_model(*x)),
            None => field(object_model(*m), key@) is None,
        },
{
    m.get(key)
}

/// `Map::insert`: the value takes the place of the value of an entry of that
/// name, and becomes the last entry where there is none.
#[verifier::external_body]
pub(crate) fn object_insert(
    m: &mut serde_json::Map<String, serde_json::Value>,
    key: String,
    value: serde_json::Value,
)
    ensures
        object_model(*final(m)) == store(object_model(*old(m)), key@, json_model(value)),
{
    m.insert(key, value);
}

/// `Map::shift_remove`: the entry of that name leaves, and the others keep
/// their order.
#[verifier::external_body]
pub(crate) fn object_remove(m: &mut serde_json::Map<String, serde_json::Value>, key: &str)
    ensures
        object_model(*final(m)) == discard(object_model(*old(m)), key@),
{
    m.shift_remove(key);
}

/// `Map::append`: the entries of `src` are inserted into `dst` one after the
/// other, in their order.
#[verifier::external_body]
pub(crate) fn object_append(
    dst: &mut serde_json::Map<String, serde_json::Value>,
    src: serde_json::Map<String, serde_json::Value>,
)
    ensures
        object_model(*final(dst)) == extend(object_model(*old(dst)), object_model(src)),
{
    let mut src = src;
    dst.append(&mut src);
}

/// `Map::clone`: the copy holds what the map holds.
pub assume_specification[ <serde_json::Map<String, serde_json::Value> as Clone>::clone ](
    m: &serde_json::Map<String, serde_json::Value>,
) -> (r: serde_json::Map<String, serde_json::Value>)
    ensures
        object_model(r) == object_model(*m),
;

/// `Map::keys`: the names of the entries, in the order of the entries. A map
/// holds no name twice.
#[verifier::external_body]
pub(crate) fn object_keys(m: &serde_json::Map<String, serde_json::Value>) -> (r: Vec<String>)
    ensures
        r@.len() == object_model(*m).len(),
        forall|i: int| 0 <= i < r@.len() ==> (#[trigger] r@[i])@ == object_model(*m)[i].0,
        forall|i: int, j: int| 0 <= i < j < r@.len() ==> r@[i]@ != r@[j]@,
{
    m.keys().cloned().collect()
}

/// `serde_json::from_str` at the type `Value`: the document that the text
/// holds, or the parser's account of why it holds none.
#[verifier::external_body]
pub(crate) fn parse_value(text: &str) -> (r: Result<serde_json::Value, serde_json::Error>)
    ensures
        match r {
            Ok(v) => parsed_json(text@) == Some(json_model(v)),
            Err(_) => parsed_json(text@) is None,
        },
{
    serde_json::from_str::<serde_json::Value>(text)
}

/// `Error::to_string`: the parser's account of a fault, with its line and
/// column.
#[verifier::external_body]
pub(crate) fn error_text(e: &serde_json::Error) -> (r: String) {
    e.to_string()
}

/// `Value::to_string`: the document as compact JSON text, which is decided by
/// what the document holds.
#[verifier::external_body]
pub(crate) fn value_text(v: &serde_json::Value) -> (r: String)
    ensures
        r@ == json_text(json_model(*v)),
{
    v.to_string()
}

/// `str::eq`: two strings are equal where they hold the same characters.
#[verifier::external_body]
pub(crate) fn str_eq(a: &str, b: &str) -> (r: bool)
    ensures
        r == (a@ == b@),
{
    a == b
}

} // verus!
