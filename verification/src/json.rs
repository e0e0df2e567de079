//! The JSON layer: the mathematical model of a JSON value, and the few
//! operations of `serde_json` through which the rest of the library reads
//! and builds values.

use vstd::prelude::*;

verus! {

/// The syntactic kind of a JSON value.
#[derive(Clone, Copy, Debug, PartialEq, Eq, Structural)]
pub enum JsonKind {
    Null,
    Bool,
    Number,
    String,
    Array,
    Object,
}

/// What a JSON number holds: an unsigned integer, a negative integer, or a
/// finite binary floating-point number given by its bit pattern.
pub enum NumberModel {
    Unsigned(u64),
    Negative(i64),
    Real(u64),
}

/// The members of a JSON object, in the order in which the object yields
/// them.
pub type Members = Seq<(Seq<char>, JsonModel)>;

/// The mathematical model of a JSON value.
pub enum JsonModel {
    Null,
    Bool(bool),
    Number(NumberModel),
    String(Seq<char>),
    Array(Seq<JsonModel>),
    Object(Members),
}

/// `serde_json::Value`, which is held without a look inside.
#[verifier::external_type_specification]
#[verifier::external_body]
pub struct ExValue(serde_json::Value);

/// `serde_json::Error`, which is held without a look inside.
#[verifier::external_type_specification]
#[verifier::external_body]
pub struct ExError(serde_json::Error);

/// The model of what a `serde_json::Value` holds.
pub uninterp spec fn value_model(v: serde_json::Value) -> JsonModel;

/// The value that `serde_json` reads from a text, `None` where it rejects
/// the text.
pub uninterp spec fn text_model(text: Seq<char>) -> Option<JsonModel>;

/// The compact text that `serde_json` writes for a value.
pub uninterp spec fn model_text(j: JsonModel) -> Seq<char>;

/// The kind of a value.
pub open spec fn kind_of(j: JsonModel) -> JsonKind {
    match j {
        JsonModel::Null => JsonKind::Null,
        JsonModel::Bool(_) => JsonKind::Bool,
        JsonModel::Number(_) => JsonKind::Number,
        JsonModel::String(_) => JsonKind::String,
        JsonModel::Array(_) => JsonKind::Array,
        JsonModel::Object(_) => JsonKind::Object,
    }
}

/// The models of the values of a list, in order.
pub open spec fn items_model(items: Seq<serde_json::Value>) -> Seq<JsonModel> {
    Seq::new(items.len(), |i: int| value_model(items[i]))
}

/// The models of owned members, in order.
pub open spec fn members_model(entries: Seq<(String, serde_json::Value)>) -> Members {
    Seq::new(entries.len(), |i: int| (entries[i].0@, value_model(entries[i].1)))
}

/// The models of borrowed members, in order.
pub open spec fn borrowed_model(entries: Seq<(&String, &serde_json::Value)>) -> Members {
    Seq::new(entries.len(), |i: int| ((*entries[i].0)@, value_model(*entries[i].1)))
}

/// No key occurs twice among the members.
pub open spec fn distinct_keys(m: Members) -> bool {
    forall|i: int, j: int| 0 <= i < j < m.len() ==> m[i].0 != m[j].0
}

/// No object in the value, at any depth, holds a key twice. This holds of
/// every value that `serde_json` builds.
pub open spec fn keys_differ(j: JsonModel) -> bool
    decreases j,
{
    match j {
        JsonModel::Array(items) => forall|i: int|
            0 <= i < items.len() ==> keys_differ(#[trigger] items[i]),
        JsonModel::Object(m) => distinct_keys(m) && forall|i: int|
            0 <= i < m.len() ==> keys_differ((#[trigger] m[i]).1),
        _ => true,
    }
}

/// The value of the first member with the key, looking from position
/// `from` on.
pub open spec fn member_from(m: Members, key: Seq<char>, from: int) -> Option<JsonModel>
    decreases m.len() - from,
{
    if from < 0 || from >= m.len() {
        None
    } else if m[from].0 == key {
        Some(m[from].1)
    } else {
        member_from(m, key, from + 1)
    }
}

/// The value of the first member with the key.
pub open spec fn member(m: Members, key: Seq<char>) -> Option<JsonModel> {
    member_from(m, key, 0)
}

/// The position of the first member with the key, looking from position
/// `from` on.
pub open spec fn position_from(m: Members, key: Seq<char>, from: int) -> Option<int>
    decreases m.len() - from,
{
    if from < 0 || from >= m.len() {
        None
    } else if m[from].0 == key {
        Some(from)
    } else {
        position_from(m, key, from + 1)
    }
}

/// The members after one insertion into an insertion-ordered object: the
/// value of an existing key is replaced where it stands, a new key goes to
/// the end.
pub open spec fn upsert(m: Members, key: Seq<char>, value: JsonModel) -> Members {
    match position_from(m, key, 0) {
        Some(i) => m.update(i, (key, value)),
        None => m.push((key, value)),
    }
}

/// The members of an insertion-ordered object into which `entries` were
/// inserted one after the other.
pub open spec fn upsert_all(entries: Members) -> Members
    decreases entries.len(),
{
    if entries.len() == 0 {
        Seq::empty()
    } else {
        upsert(upsert_all(entries.drop_last()), entries.last().0, entries.last().1)
    }
}

/// `serde_json::Value::as_bool`: the boolean of a `Bool` value, `None` for
/// every other kind.
pub assume_specification[ serde_json::Value::as_bool ](v: &serde_json::Value) -> (r: Option<bool>)
    ensures
        r == (match value_model(*v) {
            JsonModel::Bool(b) => Some(b),
            _ => None,
        }),
;

/// `serde_json::Value::as_str`: the text of a `String` value, `None` for
/// every other kind.
pub assume_specification<'a>[ serde_json::Value::as_str ](v: &'a serde_json::Value) -> (r: Option<
    &'a str,
>)
    ensures
        match value_model(*v) {
            JsonModel::String(s) => r is Some && r->0@ == s,
            _ => r is None,
        },
;

/// `serde_json::Value::as_u64`: the integer of a number that is held as an
/// unsigned integer, `None` for every other number and every other kind.
pub assume_specification[ serde_json::Value::as_u64 ](v: &serde_json::Value) -> (r: Option<u64>)
    ensures
        r == (match value_model(*v) {
            JsonModel::Number(NumberModel::Unsigned(n)) => Some(n),
            _ => None,
        }),
;

/// `serde_json::Value::as_array`: the items of an `Array` value, `None` for
/// every other kind.
pub assume_specification<'a>[ serde_json::Value::as_array ](v: &'a serde_json::Value) -> (r: Option<
    &'a Vec<serde_json::Value>,
>)
    ensures
        match value_model(*v) {
            JsonModel::Array(items) => r is Some && items_model(r->0@) == items,
            _ => r is None,
        },
;

/// `<serde_json::Value as Clone>::clone`: the copy holds what the value
/// holds.
pub assume_specification[ <serde_json::Value as Clone>::clone ](v: &serde_json::Value) -> (r:
    serde_json::Value)
    ensures
        value_model(r) == value_model(*v),
;

/// Tells the variants of `serde_json::Value` apart.
#[verifier::external_body]
pub(crate) fn kind(v: &serde_json::Value) -> (r: JsonKind)
    ensures
        r == kind_of(value_model(*v)),
{
    match v {
        serde_json::Value::Null => JsonKind::Null,
        serde_json::Value::Bool(_) => JsonKind::Bool,
        serde_json::Value::Number(_) => JsonKind::Number,
        serde_json::Value::String(_) => JsonKind::String,
        serde_json::Value::Array(_) => JsonKind::Array,
        serde_json::Value::Object(_) => JsonKind::Object,
    }
}

/// `serde_json::Value::as_object` and `serde_json::Map::iter`: the members
/// of an `Object` value in the order in which its map yields them, which
/// is the order of insertion, and `None` for every other kind. A map holds
/// each key once.
#[verifier::external_body]
pub(crate) fn members<'a>(v: &'a serde_json::Value) -> (r: Option<
    Vec<(&'a String, &'a serde_json::Value)>,
>)
    ensures
        match value_model(*v) {
            JsonModel::Object(m) => r is Some && borrowed_model(r->0@) == m && distinct_keys(m),
            _ => r is None,
        },
{
    v.as_object().map(|m| m.iter().collect())
}

/// The variant `serde_json::Value::Bool`.
#[verifier::external_body]
pub(crate) fn bool_value(b: bool) -> (r: serde_json::Value)
    ensures
        value_model(r) == JsonModel::Bool(b),
{
    serde_json::Value::Bool(b)
}

/// The variant `serde_json::Value::String`.
#[verifier::external_body]
pub(crate) fn text_value(s: &str) -> (r: serde_json::Value)
    ensures
        value_model(r) == JsonModel::String(s@),
{
    serde_json::Value::String(s.to_owned())
}

/// `<serde_json::Value as From<u32>>::from`: the number is held as an
/// unsigned integer.
#[verifier::external_body]
pub(crate) fn number_value(n: u32) -> (r: serde_json::Value)
    ensures
        value_model(r) == JsonModel::Number(NumberModel::Unsigned(n as u64)),
{
    serde_json::Value::from(n)
}

/// The variant `serde_json::Value::Array`.
#[verifier::external_body]
pub(crate) fn array_value(items: Vec<serde_json::Value>) -> (r: serde_json::Value)
    ensures
        value_model(r) == JsonModel::Array(items_model(items@)),
{
    serde_json::Value::Array(items)
}

/// The variant `serde_json::Value::Object` over
/// `<serde_json::Map<String, serde_json::Value> as FromIterator>::from_iter`,
/// which inserts the entries one after the other into a map that keeps
/// insertion order (`serde_json` is built with `preserve_order`).
#[verifier::external_body]
pub(crate) fn object_value(entries: Vec<(String, serde_json::Value)>) -> (r: serde_json::Value)
    ensures
        value_model(r) == JsonModel::Object(upsert_all(members_model(entries@))),
{
    serde_json::Value::Object(entries.into_iter().collect())
}

/// `serde_json::from_str` at `serde_json::Value`: the value read from the
/// text, or the error with which the text is rejected.
#[verifier::external_body]
pub(crate) fn read_text(text: &str) -> (r: Result<serde_json::Value, serde_json::Error>)
    ensures
        match r {
            Ok(v) => text_model(text@) == Some(value_model(v)),
            Err(_) => text_model(text@) is None,
        },
{
    serde_json::from_str::<serde_json::Value>(text)
}

/// `<serde_json::Value as ToString>::to_string`: the compact text of the
/// value.
#[verifier::external_body]
pub(crate) fn write_text(v: &serde_json::Value) -> (r: String)
    ensures
        r@ == model_text(value_model(*v)),
{
    v.to_string()
}

/// Finds the first member with the key.
pub(crate) fn find<'a>(entries: &Vec<(&'a String, &'a serde_json::Value)>, key: &str) -> (r:
    Option<&'a serde_json::Value>)
    ensures
        match r {
            Some(v) => member(borrowed_model(entries@), key@) == Some(value_model(*v)),
            None => member(borrowed_model(entries@), key@) is None,
        },
{
    let ghost m = borrowed_model(entries@);
    let mut i: usize = 0;
    while i < entries.len()
        invariant
            i <= entries.len(),
            m == borrowed_model(entries@),
            member(m, key@) == member_from(m, key@, i as int),
        decreases entries.len() - i,
    {
        let entry = &entries[i];
        if crate::text::same_text(entry.0.as_str(), key) {
            return Some(entry.1);
        }
        i += 1;
    }
    None
}

} // verus!
