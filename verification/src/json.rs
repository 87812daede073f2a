//! JSON values as `serde_json` holds them, seen through a mathematical model.
//!
//! The values stay `serde_json::Value`. Verified code reads them only through
//! the accessors of this module, and every contract elsewhere in the crate
//! speaks of their content as a [`JsonModel`].

use vstd::prelude::*;

verus! {

/// A JSON number, as `serde_json` tells its three kinds apart.
pub enum JsonNumber {
    /// A non-negative integer below 2^64, held as an integer.
    Unsigned(u64),
    /// A negative integer not below -2^63, held as an integer.
    Negative(i64),
    /// A number held in double precision, by its bit pattern.
    Real(u64),
}

/// The content of a JSON value.
pub enum JsonModel {
    Null,
    Bool(bool),
    Number(JsonNumber),
    Text(Seq<char>),
    List(Seq<JsonModel>),
    /// An object: its entries in the order in which the value iterates them.
    /// No key occurs twice.
    Record(Seq<(Seq<char>, JsonModel)>),
}

/// The value that `entries` hold under `key`: that of the first entry with
/// this key, `None` where there is none.
pub open spec fn entry_of(entries: Seq<(Seq<char>, JsonModel)>, key: Seq<char>) -> Option<
    JsonModel,
>
    decreases entries.len(),
{
    if entries.len() == 0 {
        None
    } else if entries[0].0 == key {
        Some(entries[0].1)
    } else {
        entry_of(entries.drop_first(), key)
    }
}

/// The value that `m` holds under `key`: `None` where `m` is no object, or
/// an object without the key.
pub open spec fn field_of(m: JsonModel, key: Seq<char>) -> Option<JsonModel> {
    match m {
        JsonModel::Record(entries) => entry_of(entries, key),
        _ => None,
    }
}

/// An entry is found at the first place where its key stands.
pub proof fn lemma_entry_at(entries: Seq<(Seq<char>, JsonModel)>, i: int, key: Seq<char>)
    requires
        0 <= i < entries.len(),
        entries[i].0 == key,
        forall|j: int| 0 <= j < i ==> (#[trigger] entries[j]).0 != key,
    ensures
        entry_of(entries, key) == Some(entries[i].1),
    decreases i,
{
    if i > 0 {
        let rest = entries.drop_first();
        assert(entries[0].0 != key);
        assert forall|j: int| 0 <= j < i - 1 implies (#[trigger] rest[j]).0 != key by {
            assert(rest[j] == entries[j + 1]);
        }
        lemma_entry_at(rest, i - 1, key);
    }
}

#[verifier::external_type_specification]
#[verifier::external_body]
pub struct ExJsonValue(serde_json::Value);

/// What a `serde_json::Value` holds: `Null`, a `Bool`, a `Number` by its
/// kind and exact value, a `String` by its characters, an `Array` by the
/// contents of its elements in order, an `Object` by its keys and the
/// contents of their values in iteration order.
pub uninterp spec fn json_content(v: serde_json::Value) -> JsonModel;

/// What `serde_json::from_str::<serde_json::Value>` makes of a text: the
/// content of the value it returns, `None` where it returns an error.
pub uninterp spec fn json_parse(text: Seq<char>) -> Option<JsonModel>;

/// The contents of a run of values.
pub open spec fn contents(items: Seq<serde_json::Value>) -> Seq<JsonModel> {
    Seq::new(items.len(), |i: int| json_content(items[i]))
}

/// `serde_json::from_str` for a `serde_json::Value`, its error dropped. What
/// it returns depends on the text alone and is named [`json_parse`]; nothing
/// is claimed of JSON's grammar.
#[verifier::external_body]
pub(crate) fn parse_value(text: &str) -> (r: Option<serde_json::Value>)
    ensures
        match r {
            Some(v) => json_parse(text@) == Some(json_content(v)),
            None => json_parse(text@) is None,
        },
{
    serde_json::from_str::<serde_json::Value>(text).ok()
}

/// `serde_json::Value::as_array`: the elements of an array, `None` for every
/// other value.
#[verifier::external_body]
pub(crate) fn value_items(v: &serde_json::Value) -> (r: Option<&Vec<serde_json::Value>>)
    ensures
        match r {
            Some(items) => json_content(*v) == JsonModel::List(contents(items@)),
            None => !(json_content(*v) is List),
        },
{
    v.as_array()
}

/// `serde_json::Value::get` with a string index: the value that an object
/// holds under `key`, `None` where the value is no object or lacks the key.
#[verifier::external_body]
pub(crate) fn value_field<'a>(v: &'a serde_json::Value, key: &str) -> (r: Option<
    &'a serde_json::Value,
>)
    ensures
        match r {
            Some(x) => field_of(json_content(*v), key@) == Some(json_content(*x)),
            None => field_of(json_content(*v), key@) is None,
        },
{
    v.get(key)
}

/// `serde_json::Value::as_str`: the characters of a string, `None` for every
/// other value.
#[verifier::external_body]
pub(crate) fn value_text(v: &serde_json::Value) -> (r: Option<&str>)
    ensures
        match r {
            Some(s) => json_content(*v) == JsonModel::Text(s@),
            None => !(json_content(*v) is Text),
        },
{
    v.as_str()
}

/// `serde_json::Value::as_u64`: the value of a number held as an unsigned
/// integer, `None` for every other number and every other value.
#[verifier::external_body]
pub(crate) fn value_unsigned(v: &serde_json::Value) -> (r: Option<u64>)
    ensures
        match r {
            Some(n) => json_content(*v) == JsonModel::Number(JsonNumber::Unsigned(n)),
            None => !(json_content(*v) matches JsonModel::Number(JsonNumber::Unsigned(_))),
        },
{
    v.as_u64()
}

} // verus!
