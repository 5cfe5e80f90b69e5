//! JSON documents.
//!
//! Documents are `serde_json` values. The verifier cannot look inside them,
//! so this module gives every value a mathematical model, [`JsonModel`], and
//! wraps each `serde_json` operation the crate uses in a function whose
//! contract is stated over that model. The contracts of the wrappers are
//! trusted, everything built on top of them is proved.

use crate::text::numeral_value;
use serde_json::Value;
use vstd::prelude::*;

verus! {

/// `serde_json::Value`, a JSON document.
#[verifier::external_type_specification]
#[verifier::external_body]
pub struct ExValue(serde_json::Value);

/// `serde_json::Map`, the members of a JSON object. It keeps its members
/// sorted by key, so that an object is determined by what its keys map to.
#[verifier::external_type_specification]
#[verifier::external_body]
#[verifier::reject_recursive_types(K)]
#[verifier::reject_recursive_types(V)]
pub struct ExObject<K, V>(serde_json::Map<K, V>);

/// `serde_json::Error`, the error of a failed reading.
#[verifier::external_type_specification]
#[verifier::external_body]
pub struct ExJsonError(serde_json::Error);

/// `indexmap::IndexMap`, a map that keeps its members in the order in
/// which they were inserted.
#[verifier::external_type_specification]
#[verifier::external_body]
#[verifier::reject_recursive_types(K)]
#[verifier::reject_recursive_types(V)]
#[verifier::reject_recursive_types(S)]
pub struct ExIndexMap<K, V, S>(indexmap::IndexMap<K, V, S>);

/// A JSON number as `serde_json` stores it: an integer, or a float given by
/// its bit pattern.
pub enum NumberModel {
    Integer(int),
    Float(int),
}

/// The mathematical content of a JSON document.
pub enum JsonModel {
    Null,
    Bool(bool),
    Number(NumberModel),
    Str(Seq<char>),
    Array(Seq<JsonModel>),
    Object(Map<Seq<char>, JsonModel>),
}

/// The document that a `serde_json::Value` holds.
pub uninterp spec fn value_model(v: Value) -> JsonModel;

/// The members that a `serde_json::Map` holds, by key.
pub uninterp spec fn object_model(m: serde_json::Map<String, Value>) -> Map<Seq<char>, JsonModel>;

/// The members that an `IndexMap` of values holds, in the order in which
/// the map keeps them.
pub uninterp spec fn ordered_members(m: indexmap::IndexMap<String, Value>) -> Seq<
    (Seq<char>, JsonModel),
>;

/// What is read from the documents that are read with success: an absent
/// count from a null and from an empty string, the number from an
/// unsigned numeral and from an integer, if a `u64` can hold it. `None`
/// for every other document.
pub open spec fn plain_count(v: JsonModel) -> Option<Option<u64>> {
    match v {
        JsonModel::Null => Some(None),
        JsonModel::Str(s) => if s.len() == 0 {
            Some(None)
        } else {
            match numeral_value(s) {
                Some(n) => if n <= u64::MAX {
                    Some(Some(n as u64))
                } else {
                    None
                },
                None => None,
            }
        },
        JsonModel::Number(NumberModel::Integer(n)) => if 0 <= n <= u64::MAX {
            Some(Some(n as u64))
        } else {
            None
        },
        _ => None,
    }
}

/// Whether no count can be read from a document: a boolean, an array, an
/// object, a float, an integer that a `u64` cannot hold, and a string
/// that is neither empty nor an unsigned numeral that a `u64` can hold.
/// These are the documents of which `plain_count` says nothing.
pub open spec fn holds_no_count(v: JsonModel) -> bool {
    match v {
        JsonModel::Null => false,
        JsonModel::Bool(_) => true,
        JsonModel::Number(NumberModel::Integer(n)) => !(0 <= n <= u64::MAX),
        JsonModel::Number(NumberModel::Float(_)) => true,
        JsonModel::Str(s) => s.len() > 0 && match numeral_value(s) {
            Some(n) => n > u64::MAX,
            None => true,
        },
        JsonModel::Array(_) => true,
        JsonModel::Object(_) => true,
    }
}

/// Whether a reading agrees with what is plain: if `plain` says what is
/// read, the reading succeeded with that count.
pub open spec fn agrees(r: Result<Option<u64>, serde_json::Error>, plain: Option<Option<u64>>) -> bool {
    plain matches Some(count) ==> r matches Ok(read) && read == count
}

/// Whether a reading gave no count where none can be read: it failed, or
/// it succeeded with an absent count.
pub open spec fn without_count(r: Result<Option<u64>, serde_json::Error>, none: bool) -> bool {
    none ==> !(r matches Ok(Some(_)))
}

/// The object model without members.
pub open spec fn no_members() -> Map<Seq<char>, JsonModel> {
    Map::empty()
}

/// The models of a list of values, in order.
pub open spec fn models(items: Seq<Value>) -> Seq<JsonModel> {
    items.map_values(|v: Value| value_model(v))
}

/// `Value::String`: the value is the string `s`.
#[verifier::external_body]
pub(crate) fn json_string(s: String) -> (v: Value)
    ensures
        value_model(v) == JsonModel::Str(s@),
{
    Value::String(s)
}

/// `Map::new`: an object without members.
#[verifier::external_body]
pub(crate) fn new_object() -> (m: serde_json::Map<String, Value>)
    ensures
        object_model(m) == no_members(),
{
    serde_json::Map::new()
}

/// `Map::insert`: afterwards `key` maps to `v`, whether or not the key was
/// present before, and every other member is unchanged.
#[verifier::external_body]
pub(crate) fn object_insert(m: &mut serde_json::Map<String, Value>, key: String, v: Value)
    ensures
        object_model(*final(m)) == object_model(*old(m)).insert(key@, value_model(v)),
{
    m.insert(key, v);
}

/// `Value::Object`: the value is the object `m`.
#[verifier::external_body]
pub(crate) fn json_object(m: serde_json::Map<String, Value>) -> (v: Value)
    ensures
        value_model(v) == JsonModel::Object(object_model(m)),
{
    Value::Object(m)
}

/// `Value::from` on a `u64`: the value is the integer `n`.
#[verifier::external_body]
pub(crate) fn json_unsigned(n: u64) -> (v: Value)
    ensures
        value_model(v) == integer(n as int),
{
    Value::from(n)
}

/// `Value::Array`: the value is the array of `items`, in their order.
#[verifier::external_body]
pub(crate) fn json_array(items: Vec<Value>) -> (v: Value)
    ensures
        value_model(v) == JsonModel::Array(models(items@)),
{
    Value::Array(items)
}

/// `Map::get`: the member stored under `key`, if there is one.
#[verifier::external_body]
pub(crate) fn object_get<'a>(m: &'a serde_json::Map<String, Value>, key: &str) -> (r: Option<
    &'a Value,
>)
    ensures
        match r {
            Some(v) => object_model(*m).dom().contains(key@) && object_model(*m)[key@]
                == value_model(*v),
            None => !object_model(*m).dom().contains(key@),
        },
{
    m.get(key)
}

/// `Value::as_object`: the members of `v` if it is an object, `None` for
/// every other kind of value.
#[verifier::external_body]
pub(crate) fn as_object<'a>(v: &'a Value) -> (r: Option<&'a serde_json::Map<String, Value>>)
    ensures
        match r {
            Some(m) => value_model(*v) == JsonModel::Object(object_model(*m)),
            None => !(value_model(*v) is Object),
        },
{
    v.as_object()
}

/// `Value::as_array`: the items of `v` if it is an array, `None` for every
/// other kind of value.
#[verifier::external_body]
pub(crate) fn as_array<'a>(v: &'a Value) -> (r: Option<&'a Vec<Value>>)
    ensures
        match r {
            Some(items) => value_model(*v) == JsonModel::Array(models(items@)),
            None => !(value_model(*v) is Array),
        },
{
    v.as_array()
}

/// `IndexMap::is_empty`: whether the map holds no member.
#[verifier::external_body]
pub(crate) fn has_no_members(m: &indexmap::IndexMap<String, Value>) -> (r: bool)
    ensures
        r == (ordered_members(*m).len() == 0),
{
    m.is_empty()
}

/// `serde_aux::field_attributes::deserialize_option_number_from_string`,
/// reading a `u64` from a value. A null and an empty string are read as
/// an absent count. An integer that a `u64` can hold is read as itself,
/// and so is a string that `u64::from_str` parses: ASCII digits after an
/// optional `+`, whose value a `u64` can hold. From every other document
/// no number is read: from any other string, a negative integer, a float,
/// a boolean, an array and an object.
#[verifier::external_body]
pub(crate) fn read_optional_count(token: &Value) -> (r: Result<Option<u64>, serde_json::Error>)
    ensures
        agrees(r, plain_count(value_model(*token))),
        without_count(r, holds_no_count(value_model(*token))),
{
    serde_aux::field_attributes::deserialize_option_number_from_string::<u64, &Value>(token)
}

/// `Value::clone`: a value that holds the same document.
pub assume_specification[ <serde_json::Value as Clone>::clone ](v: &Value) -> (r: Value)
    ensures
        value_model(r) == value_model(*v),
;

/// `Map::clone`: an object that holds the same members.
pub assume_specification[ <serde_json::Map<String, Value> as Clone>::clone ](
    m: &serde_json::Map<String, Value>,
) -> (r: serde_json::Map<String, Value>)
    ensures
        object_model(r) == object_model(*m),
;

/// The integer `n` as a document.
pub open spec fn integer(n: int) -> JsonModel {
    JsonModel::Number(NumberModel::Integer(n))
}

/// The strings `items` as documents, in order.
pub open spec fn texts(items: Seq<Seq<char>>) -> Seq<JsonModel> {
    items.map_values(|s: Seq<char>| JsonModel::Str(s))
}

/// The views of a list of strings, in order.
pub open spec fn views(items: Seq<String>) -> Seq<Seq<char>> {
    items.map_values(|s: String| s@)
}

/// The object with the single member `key: member`.
pub open spec fn object1(key: Seq<char>, member: JsonModel) -> JsonModel {
    JsonModel::Object(no_members().insert(key, member))
}

/// The object with the members `key1: member1` and `key2: member2`; if the
/// keys are equal, the second member stands.
pub open spec fn object2(
    key1: Seq<char>,
    member1: JsonModel,
    key2: Seq<char>,
    member2: JsonModel,
) -> JsonModel {
    JsonModel::Object(no_members().insert(key1, member1).insert(key2, member2))
}

/// Builds the object with the single member `key: member`.
pub fn single_member(key: &str, member: Value) -> (v: Value)
    ensures
        value_model(v) == object1(key@, value_model(member)),
{
    let mut m = new_object();
    object_insert(&mut m, key.to_owned(), member);
    json_object(m)
}

/// Builds the object with two members; if the keys are equal, the second
/// member stands.
pub fn two_members(key1: &str, member1: Value, key2: &str, member2: Value) -> (v: Value)
    ensures
        value_model(v) == object2(key1@, value_model(member1), key2@, value_model(member2)),
{
    let mut m = new_object();
    object_insert(&mut m, key1.to_owned(), member1);
    object_insert(&mut m, key2.to_owned(), member2);
    json_object(m)
}

/// Builds the string value that holds `s`.
pub fn text_value(s: &str) -> (v: Value)
    ensures
        value_model(v) == JsonModel::Str(s@),
{
    json_string(s.to_owned())
}

/// Appends the strings of `fields` to `items` as string values, in order.
pub fn push_texts(items: &mut Vec<Value>, fields: &Vec<String>)
    ensures
        models(final(items)@) == models(old(items)@) + texts(views(fields@)),
{
    let ghost before = models(items@);
    let mut i: usize = 0;
    while i < fields.len()
        invariant
            i <= fields.len(),
            models(items@) == before + texts(views(fields@.take(i as int))),
        decreases fields.len() - i,
    {
        let ghost earlier = items@;
        items.push(text_value(fields[i].as_str()));
        proof {
            assert(models(items@) =~= models(earlier).push(JsonModel::Str(fields@[i as int]@)));
        }
        i = i + 1;
    }
}

/// Copies a list of values.
pub fn clone_values(items: &Vec<Value>) -> (r: Vec<Value>)
    ensures
        models(r@) == models(items@),
{
    let mut r: Vec<Value> = Vec::new();
    let mut i: usize = 0;
    while i < items.len()
        invariant
            i <= items.len(),
            models(r@) == models(items@.take(i as int)),
        decreases items.len() - i,
    {
        r.push(items[i].clone());
        proof {
            assert(models(items@.take(i + 1)) =~= models(items@.take(i as int)).push(
                value_model(items@[i as int]),
            ));
        }
        i = i + 1;
    }
    r
}

} // verus!
