//! JSON documents, as `serde_json` reads and writes them.
//!
//! The functions of this module only make the call into `serde_json`, and
//! their contracts are taken on trust: they restate what that crate's source
//! shows, over the three names `json_of`, `json_parse` and `json_text`. The
//! rest of the library is proved against them.

use vstd::prelude::*;

verus! {

/// What a JSON document holds. Numbers other than the unsigned integers that
/// fit 64 bits are not told apart; an object keeps its members in order.
pub enum Json {
    Null,
    Bool(bool),
    Unsigned(u64),
    OtherNumber,
    Text(Seq<char>),
    Array(Seq<Json>),
    Object(Seq<(Seq<char>, Json)>),
}

/// `serde_json::Value`, carried through without a look inside.
#[verifier::external_type_specification]
#[verifier::external_body]
pub struct ExValue(serde_json::Value);

/// `serde_json::Error`, carried through without a look inside.
#[verifier::external_type_specification]
#[verifier::external_body]
pub struct ExError(serde_json::Error);

/// The document that a `serde_json::Value` holds.
pub uninterp spec fn json_of(v: serde_json::Value) -> Json;

/// The document that `serde_json::from_slice` reads from `bytes`, if it
/// accepts them.
pub uninterp spec fn json_parse(bytes: Seq<u8>) -> Option<Json>;

/// The bytes that `serde_json::to_vec` writes for a document.
pub uninterp spec fn json_text(doc: Json) -> Seq<u8>;

/// The first member of an object under `key`, if the document is an object
/// and has one.
pub open spec fn member(doc: Json, key: Seq<char>) -> Option<Json> {
    match doc {
        Json::Object(entries) => first_under(entries, key),
        _ => None,
    }
}

/// The value of the first entry under `key`.
pub open spec fn first_under(entries: Seq<(Seq<char>, Json)>, key: Seq<char>) -> Option<Json>
    decreases entries.len(),
{
    if entries.len() == 0 {
        None
    } else if entries[0].0 == key {
        Some(entries[0].1)
    } else {
        first_under(entries.skip(1), key)
    }
}

/// No two entries share a key.
pub open spec fn distinct_keys(entries: Seq<(Seq<char>, Json)>) -> bool {
    forall|i: int, j: int|
        0 <= i < j < entries.len() ==> (#[trigger] entries[i]).0 != (#[trigger] entries[j]).0
}

/// An object whose keys are distinct and whose members are all unsigned
/// integers or texts.
pub open spec fn flat_record(doc: Json) -> bool {
    &&& doc is Object
    &&& distinct_keys(doc->Object_0)
    &&& forall|i: int|
        0 <= i < doc->Object_0.len() ==> {
            let m = (#[trigger] doc->Object_0[i]).1;
            m is Unsigned || m is Text
        }
}

/// `serde_json::from_slice` at `serde_json::Value`: the bytes are accepted
/// exactly when they are one JSON document, and the value then holds it.
/// Empty input is an error.
#[verifier::external_body]
pub(crate) fn parse_value(bytes: &[u8]) -> (r: Result<serde_json::Value, serde_json::Error>)
    ensures
        match r {
            Ok(v) => json_parse(bytes@) == Some(json_of(v)),
            Err(_) => json_parse(bytes@) is None,
        },
        bytes@.len() == 0 ==> r is Err,
{
    serde_json::from_slice::<serde_json::Value>(bytes)
}

/// `serde_json::to_vec` on a flat record: it succeeds, and what it writes
/// is not empty and is read back by `serde_json::from_slice` as the same
/// document.
#[verifier::external_body]
pub(crate) fn render_value(v: &serde_json::Value) -> (r: Result<Vec<u8>, serde_json::Error>)
    requires
        flat_record(json_of(*v)),
    ensures
        r is Ok,
        r matches Ok(bytes) ==> bytes@ == json_text(json_of(*v)) && bytes@.len() > 0
            && json_parse(bytes@) == Some(json_of(*v)),
{
    serde_json::to_vec(v)
}

/// `Value::get` with a string key: the member under that key, where the
/// value is an object that has one.
#[verifier::external_body]
pub(crate) fn value_member<'a>(v: &'a serde_json::Value, key: &str) -> (r: Option<
    &'a serde_json::Value,
>)
    ensures
        match r {
            Some(m) => member(json_of(*v), key@) == Some(json_of(*m)),
            None => member(json_of(*v), key@) is None,
        },
{
    v.get(key)
}

/// `Value::is_object`: whether the value is an object.
#[verifier::external_body]
pub(crate) fn value_is_object(v: &serde_json::Value) -> (r: bool)
    ensures
        r == (json_of(*v) is Object),
{
    v.is_object()
}

/// `Value::as_u64`: the number, where the value is an unsigned integer that
/// fits 64 bits.
#[verifier::external_body]
pub(crate) fn value_as_u64(v: &serde_json::Value) -> (r: Option<u64>)
    ensures
        r == (match json_of(*v) {
            Json::Unsigned(n) => Some(n),
            _ => None,
        }),
{
    v.as_u64()
}

/// `Value::as_str`: the text, where the value is a string.
#[verifier::external_body]
pub(crate) fn value_as_str<'a>(v: &'a serde_json::Value) -> (r: Option<&'a str>)
    ensures
        match r {
            Some(s) => json_of(*v) == Json::Text(s@),
            None => !(json_of(*v) is Text),
        },
{
    v.as_str()
}

/// `Value::as_array`: the items, where the value is an array.
#[verifier::external_body]
pub(crate) fn value_as_array<'a>(v: &'a serde_json::Value) -> (r: Option<&'a Vec<serde_json::Value>>)
    ensures
        match r {
            Some(items) => json_of(*v) == Json::Array(items@.map_values(|x: serde_json::Value| json_of(x))),
            None => !(json_of(*v) is Array),
        },
{
    v.as_array()
}

/// `Value::from` at `u64`: the value of an unsigned integer.
#[verifier::external_body]
pub(crate) fn value_from_u64(n: u64) -> (r: serde_json::Value)
    ensures
        json_of(r) == Json::Unsigned(n),
{
    serde_json::Value::from(n)
}

/// `Value::from` at `String`: the value of a text.
#[verifier::external_body]
pub(crate) fn value_from_text(s: String) -> (r: serde_json::Value)
    ensures
        json_of(r) == Json::Text(s@),
{
    serde_json::Value::from(s)
}

/// `Value::from_iter` at pairs of key and value: the object of these
/// members, in the order given, where no key occurs twice.
#[verifier::external_body]
pub(crate) fn value_from_members(members: Vec<(String, serde_json::Value)>) -> (r:
    serde_json::Value)
    requires
        forall|i: int, j: int|
            0 <= i < j < members@.len() ==> (#[trigger] members@[i]).0@ != (
            #[trigger] members@[j]).0@,
    ensures
        json_of(r) == Json::Object(
            members@.map_values(|m: (String, serde_json::Value)| (m.0@, json_of(m.1))),
        ),
{
    members.into_iter().collect()
}

} // verus!
