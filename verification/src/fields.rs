//! Reading the members of a JSON object as fields of given shapes, and
//! writing fields back as members.

use vstd::prelude::*;
use serde_json::Value;
use crate::error::{
    ParseError, ParseErrorModel, item_path, join_path, list_item_path, mismatch, outcome, path_of,
};
use crate::json::{
    JsonKind, JsonModel, Members, NumberModel, array_value, bool_value, borrowed_model,
    distinct_keys, find, items_model, kind, member, members, members_model, number_value,
    object_value, text_value, upsert_all, value_model,
};

verus! {

/// A member that is missing, or whose value is null, is unset.
pub open spec fn unset(found: Option<JsonModel>) -> bool {
    found is None || found == Some(JsonModel::Null)
}

/// The value of a member; a missing member reads as null.
pub open spec fn present(found: Option<JsonModel>) -> JsonModel {
    match found {
        Some(j) => j,
        None => JsonModel::Null,
    }
}

/// The read of an optional field: unset gives `None`, and a value is read
/// as `read` says.
pub open spec fn optional<T>(found: Option<JsonModel>, read: Result<T, ParseErrorModel>) -> Result<
    Option<T>,
    ParseErrorModel,
> {
    if unset(found) {
        Ok(None)
    } else {
        match read {
            Ok(x) => Ok(Some(x)),
            Err(e) => Err(e),
        }
    }
}

/// The read of a field with a default: a missing member gives the
/// default, and a value, null too, is read as `read` says.
pub open spec fn defaulted<T>(
    found: Option<JsonModel>,
    read: Result<T, ParseErrorModel>,
    default: T,
) -> Result<
    T,
    ParseErrorModel,
> {
    if found is None {
        Ok(default)
    } else {
        read
    }
}

/// A text is read from a string.
pub open spec fn text_of(j: JsonModel, path: Seq<char>) -> Result<Seq<char>, ParseErrorModel> {
    match j {
        JsonModel::String(s) => Ok(s),
        _ => Err(mismatch(path, seq![JsonKind::String], j)),
    }
}

/// A flag is read from a boolean.
pub open spec fn flag_of(j: JsonModel, path: Seq<char>) -> Result<bool, ParseErrorModel> {
    match j {
        JsonModel::Bool(b) => Ok(b),
        _ => Err(mismatch(path, seq![JsonKind::Bool], j)),
    }
}

/// A count is read from a number that is an unsigned integer of 32 bits.
pub open spec fn count_of(j: JsonModel, path: Seq<char>) -> Result<u32, ParseErrorModel> {
    match j {
        JsonModel::Number(NumberModel::Unsigned(n)) => if n <= u32::MAX {
            Ok(n as u32)
        } else {
            Err(mismatch(path, seq![JsonKind::Number], j))
        },
        _ => Err(mismatch(path, seq![JsonKind::Number], j)),
    }
}

/// The texts of the first `n` items, or the error of the first item that
/// is no string.
pub open spec fn texts_upto(items: Seq<JsonModel>, path: Seq<char>, n: int) -> Result<
    Seq<Seq<char>>,
    ParseErrorModel,
>
    decreases n,
{
    if n <= 0 {
        Ok(Seq::empty())
    } else {
        match texts_upto(items, path, n - 1) {
            Err(e) => Err(e),
            Ok(front) => match text_of(items[n - 1], item_path(path)) {
                Ok(s) => Ok(front.push(s)),
                Err(e) => Err(e),
            },
        }
    }
}

/// A list of texts is read from an array of strings.
pub open spec fn texts_of(
    j: JsonModel,
    path: Seq<char>,
) -> Result<Seq<Seq<char>>, ParseErrorModel> {
    match j {
        JsonModel::Array(items) => texts_upto(items, path, items.len() as int),
        _ => Err(mismatch(path, seq![JsonKind::Array], j)),
    }
}

/// The entries of the first `n` members, or the error of the first member
/// whose value is no string.
pub open spec fn text_map_upto(m: Members, path: Seq<char>, n: int) -> Result<
    Seq<(Seq<char>, Seq<char>)>,
    ParseErrorModel,
>
    decreases n,
{
    if n <= 0 {
        Ok(Seq::empty())
    } else {
        match text_map_upto(m, path, n - 1) {
            Err(e) => Err(e),
            Ok(front) => match text_of(m[n - 1].1, path_of(path, m[n - 1].0)) {
                Ok(s) => Ok(front.push((m[n - 1].0, s))),
                Err(e) => Err(e),
            },
        }
    }
}

/// A mapping from names to texts is read from an object whose values are
/// strings, in the order of its members.
pub open spec fn text_map_of(j: JsonModel, path: Seq<char>) -> Result<
    Seq<(Seq<char>, Seq<char>)>,
    ParseErrorModel,
> {
    match j {
        JsonModel::Object(m) => text_map_upto(m, path, m.len() as int),
        _ => Err(mismatch(path, seq![JsonKind::Object], j)),
    }
}

/// The member `key` of the object at `prefix`, read as a text that may be
/// unset.
#[verifier::opaque]
pub open spec fn opt_text_in(m: Members, prefix: Seq<char>, key: Seq<char>) -> Result<
    Option<Seq<char>>,
    ParseErrorModel,
> {
    optional(member(m, key), text_of(present(member(m, key)), path_of(prefix, key)))
}

/// The member `key` of the object at `prefix`, read as a text that must be
/// there.
#[verifier::opaque]
pub open spec fn req_text_in(m: Members, prefix: Seq<char>, key: Seq<char>) -> Result<
    Seq<char>,
    ParseErrorModel,
> {
    text_of(present(member(m, key)), path_of(prefix, key))
}

/// The member `key` of the object at `prefix`, read as a flag that may be
/// unset.
#[verifier::opaque]
pub open spec fn opt_flag_in(m: Members, prefix: Seq<char>, key: Seq<char>) -> Result<
    Option<bool>,
    ParseErrorModel,
> {
    optional(member(m, key), flag_of(present(member(m, key)), path_of(prefix, key)))
}

/// The member `key` of the object at `prefix`, read as a flag that must be
/// there.
#[verifier::opaque]
pub open spec fn req_flag_in(m: Members, prefix: Seq<char>, key: Seq<char>) -> Result<
    bool,
    ParseErrorModel,
> {
    flag_of(present(member(m, key)), path_of(prefix, key))
}

/// The member `key` of the object at `prefix`, read as a count that may be
/// unset.
#[verifier::opaque]
pub open spec fn opt_count_in(m: Members, prefix: Seq<char>, key: Seq<char>) -> Result<
    Option<u32>,
    ParseErrorModel,
> {
    optional(member(m, key), count_of(present(member(m, key)), path_of(prefix, key)))
}

/// The member `key` of the object at `prefix`, read as a list of texts that may be
/// unset.
#[verifier::opaque]
pub open spec fn opt_texts_in(m: Members, prefix: Seq<char>, key: Seq<char>) -> Result<
    Option<Seq<Seq<char>>>,
    ParseErrorModel,
> {
    optional(member(m, key), texts_of(present(member(m, key)), path_of(prefix, key)))
}

/// The member `key` of the object at `prefix`, read as a list of texts that is empty
/// where the member is missing.
#[verifier::opaque]
pub open spec fn texts_in(m: Members, prefix: Seq<char>, key: Seq<char>) -> Result<
    Seq<Seq<char>>,
    ParseErrorModel,
> {
    defaulted(member(m, key), texts_of(present(member(m, key)), path_of(prefix, key)), Seq::empty())
}

/// The member `key` of the object at `prefix`, read as a mapping from names to texts that may be
/// unset.
#[verifier::opaque]
pub open spec fn opt_text_map_in(m: Members, prefix: Seq<char>, key: Seq<char>) -> Result<
    Option<Seq<(Seq<char>, Seq<char>)>>,
    ParseErrorModel,
> {
    optional(member(m, key), text_map_of(present(member(m, key)), path_of(prefix, key)))
}

/// The member `key` of the object at `prefix`, read as a mapping from names to texts that is empty
/// where the member is missing.
#[verifier::opaque]
pub open spec fn text_map_in(m: Members, prefix: Seq<char>, key: Seq<char>) -> Result<
    Seq<(Seq<char>, Seq<char>)>,
    ParseErrorModel,
> {
    defaulted(
        member(m, key),
        text_map_of(present(member(m, key)), path_of(prefix, key)),
        Seq::empty(),
    )
}

/// The error for the value `v` at `path`, where one kind is expected.
pub(crate) fn shape_error(path: String, expected: JsonKind, v: &Value) -> (e: ParseError)
    ensures
        e.deep_view() == mismatch(path@, seq![expected], value_model(*v)),
{
    let kinds = vec![expected];
    assert(kinds@ =~= seq![expected]);
    ParseError::ShapeMismatch { field_path: path, expected_kinds: kinds, actual_kind: kind(v) }
}

/// The error for the value `v` at `path`, where two kinds are expected.
pub(crate) fn shape_error_of_two(path: String, first: JsonKind, second: JsonKind, v: &Value) -> (e:
    ParseError)
    ensures
        e.deep_view() == mismatch(path@, seq![first, second], value_model(*v)),
{
    let kinds = vec![first, second];
    assert(kinds@ =~= seq![first, second]);
    ParseError::ShapeMismatch { field_path: path, expected_kinds: kinds, actual_kind: kind(v) }
}

/// The error for a required member that is missing.
pub(crate) fn missing_error(path: String, expected: JsonKind) -> (e: ParseError)
    ensures
        e.deep_view() == mismatch(path@, seq![expected], JsonModel::Null),
{
    let kinds = vec![expected];
    assert(kinds@ =~= seq![expected]);
    ParseError::ShapeMismatch { field_path: path, expected_kinds: kinds, actual_kind: JsonKind::Null }
}

pub(crate) fn text_at(v: &Value, prefix: &str, key: &str) -> (r: Result<String, ParseError>)
    ensures
        outcome(r) == text_of(value_model(*v), path_of(prefix@, key@)),
{
    match v.as_str() {
        Some(s) => Ok(s.to_owned()),
        None => Err(shape_error(join_path(prefix, key), JsonKind::String, v)),
    }
}

pub(crate) fn flag_at(v: &Value, prefix: &str, key: &str) -> (r: Result<bool, ParseError>)
    ensures
        outcome(r) == flag_of(value_model(*v), path_of(prefix@, key@)),
{
    match v.as_bool() {
        Some(b) => Ok(b),
        None => Err(shape_error(join_path(prefix, key), JsonKind::Bool, v)),
    }
}

pub(crate) fn count_at(v: &Value, prefix: &str, key: &str) -> (r: Result<u32, ParseError>)
    ensures
        outcome(r) == count_of(value_model(*v), path_of(prefix@, key@)),
{
    match v.as_u64() {
        Some(n) => {
            if n <= 0xffff_ffff {
                Ok(n as u32)
            } else {
                Err(shape_error(join_path(prefix, key), JsonKind::Number, v))
            }
        },
        None => Err(shape_error(join_path(prefix, key), JsonKind::Number, v)),
    }
}

pub(crate) fn texts_at(v: &Value, prefix: &str, key: &str) -> (r: Result<Vec<String>, ParseError>)
    ensures
        outcome(r) == texts_of(value_model(*v), path_of(prefix@, key@)),
{
    let items = match v.as_array() {
        Some(items) => items,
        None => {
            return Err(shape_error(join_path(prefix, key), JsonKind::Array, v));
        },
    };
    let ghost ms = items_model(items@);
    let ghost path = path_of(prefix@, key@);
    let mut out: Vec<String> = Vec::new();
    let mut i: usize = 0;
    assert(out.deep_view() =~= Seq::<Seq<char>>::empty());
    while i < items.len()
        invariant
            i <= items.len(),
            ms == items_model(items@),
            value_model(*v) == JsonModel::Array(ms),
            path == path_of(prefix@, key@),
            texts_upto(ms, path, i as int) == Ok::<Seq<Seq<char>>, ParseErrorModel>(out.deep_view()),
        decreases items.len() - i,
    {
        let item = &items[i];
        assert(ms[i as int] == value_model(*item));
        match item.as_str() {
            Some(s) => {
                let ghost before = out.deep_view();
                out.push(s.to_owned());
                assert(out.deep_view() =~= before.push(s@));
            },
            None => {
                let e = shape_error(list_item_path(join_path(prefix, key).as_str()), JsonKind::String, item);
                assert(texts_upto(ms, path, i + 1) == Err::<Seq<Seq<char>>, ParseErrorModel>(e.deep_view()));
                proof {
                    assert(ms.len() == items.len());
                    lemma_texts_error_stays(ms, path, i + 1, ms.len() as int);
                }
                return Err(e);
            },
        }
        i += 1;
    }
    Ok(out)
}

/// Once an item has failed, reading further items gives the same error.
pub proof fn lemma_texts_error_stays(items: Seq<JsonModel>, path: Seq<char>, k: int, n: int)
    requires
        k <= n,
        texts_upto(items, path, k) is Err,
    ensures
        texts_upto(items, path, n) == texts_upto(items, path, k),
    decreases n - k,
{
    if k < n {
        lemma_texts_error_stays(items, path, k, n - 1);
    }
}

/// Once a member has failed, reading further members gives the same error.
pub proof fn lemma_text_map_error_stays(m: Members, path: Seq<char>, k: int, n: int)
    requires
        k <= n,
        text_map_upto(m, path, k) is Err,
    ensures
        text_map_upto(m, path, n) == text_map_upto(m, path, k),
    decreases n - k,
{
    if k < n {
        lemma_text_map_error_stays(m, path, k, n - 1);
    }
}

pub(crate) fn text_map_at(v: &Value, prefix: &str, key: &str) -> (r: Result<
    Vec<(String, String)>,
    ParseError,
>)
    ensures
        outcome(r) == text_map_of(value_model(*v), path_of(prefix@, key@)),
        r is Ok ==> distinct_names(r->Ok_0.deep_view()),
{
    let entries = match members(v) {
        Some(entries) => entries,
        None => {
            return Err(shape_error(join_path(prefix, key), JsonKind::Object, v));
        },
    };
    let ghost m = borrowed_model(entries@);
    let ghost path = path_of(prefix@, key@);
    let mut out: Vec<(String, String)> = Vec::new();
    let mut i: usize = 0;
    assert(out.deep_view() =~= Seq::<(Seq<char>, Seq<char>)>::empty());
    while i < entries.len()
        invariant
            i <= entries.len(),
            m == borrowed_model(entries@),
            value_model(*v) == JsonModel::Object(m),
            distinct_keys(m),
            path == path_of(prefix@, key@),
            text_map_upto(m, path, i as int) == Ok::<Seq<(Seq<char>, Seq<char>)>, ParseErrorModel>(
                out.deep_view(),
            ),
            out.deep_view().len() == i,
            forall|k: int| 0 <= k < i ==> (#[trigger] out.deep_view()[k]).0 == m[k].0,
        decreases entries.len() - i,
    {
        let name = entries[i].0;
        let item = entries[i].1;
        assert(m[i as int] == ((*name)@, value_model(*item)));
        match item.as_str() {
            Some(s) => {
                let ghost before = out.deep_view();
                out.push((name.clone(), s.to_owned()));
                assert(out.deep_view() =~= before.push((name@, s@)));
            },
            None => {
                let here = join_path(prefix, key);
                let e = shape_error(join_path(here.as_str(), name.as_str()), JsonKind::String, item);
                proof {
                    assert(m.len() == entries.len());
                    lemma_text_map_error_stays(m, path, i + 1, m.len() as int);
                }
                return Err(e);
            },
        }
        i += 1;
    }
    Ok(out)
}

/// No name occurs twice among the entries.
pub open spec fn distinct_names<T>(entries: Seq<(Seq<char>, T)>) -> bool {
    forall|i: int, j: int| 0 <= i < j < entries.len() ==> entries[i].0 != entries[j].0
}

pub(crate) fn opt_text(entries: &Vec<(&String, &Value)>, prefix: &str, key: &str) -> (r: Result<
    Option<String>,
    ParseError,
>)
    ensures
        outcome(r) == opt_text_in(borrowed_model(entries@), prefix@, key@),
{
    proof {
        reveal(opt_text_in);
    }
    match find(entries, key) {
        Some(v) => {
            if kind(v) == JsonKind::Null {
                Ok(None)
            } else {
                match text_at(v, prefix, key) {
                    Ok(s) => Ok(Some(s)),
                    Err(e) => Err(e),
                }
            }
        },
        None => Ok(None),
    }
}

pub(crate) fn req_text(entries: &Vec<(&String, &Value)>, prefix: &str, key: &str) -> (r: Result<
    String,
    ParseError,
>)
    ensures
        outcome(r) == req_text_in(borrowed_model(entries@), prefix@, key@),
{
    proof {
        reveal(req_text_in);
    }
    match find(entries, key) {
        Some(v) => text_at(v, prefix, key),
        None => Err(missing_error(join_path(prefix, key), JsonKind::String)),
    }
}

pub(crate) fn opt_flag(entries: &Vec<(&String, &Value)>, prefix: &str, key: &str) -> (r: Result<
    Option<bool>,
    ParseError,
>)
    ensures
        outcome(r) == opt_flag_in(borrowed_model(entries@), prefix@, key@),
{
    proof {
        reveal(opt_flag_in);
    }
    match find(entries, key) {
        Some(v) => {
            if kind(v) == JsonKind::Null {
                Ok(None)
            } else {
                match flag_at(v, prefix, key) {
                    Ok(b) => Ok(Some(b)),
                    Err(e) => Err(e),
                }
            }
        },
        None => Ok(None),
    }
}

pub(crate) fn req_flag(entries: &Vec<(&String, &Value)>, prefix: &str, key: &str) -> (r: Result<
    bool,
    ParseError,
>)
    ensures
        outcome(r) == req_flag_in(borrowed_model(entries@), prefix@, key@),
{
    proof {
        reveal(req_flag_in);
    }
    match find(entries, key) {
        Some(v) => flag_at(v, prefix, key),
        None => Err(missing_error(join_path(prefix, key), JsonKind::Bool)),
    }
}

pub(crate) fn opt_count(entries: &Vec<(&String, &Value)>, prefix: &str, key: &str) -> (r: Result<
    Option<u32>,
    ParseError,
>)
    ensures
        outcome(r) == opt_count_in(borrowed_model(entries@), prefix@, key@),
{
    proof {
        reveal(opt_count_in);
    }
    match find(entries, key) {
        Some(v) => {
            if kind(v) == JsonKind::Null {
                Ok(None)
            } else {
                match count_at(v, prefix, key) {
                    Ok(n) => Ok(Some(n)),
                    Err(e) => Err(e),
                }
            }
        },
        None => Ok(None),
    }
}

pub(crate) fn opt_texts(entries: &Vec<(&String, &Value)>, prefix: &str, key: &str) -> (r: Result<
    Option<Vec<String>>,
    ParseError,
>)
    ensures
        outcome(r) == opt_texts_in(borrowed_model(entries@), prefix@, key@),
{
    proof {
        reveal(opt_texts_in);
    }
    match find(entries, key) {
        Some(v) => {
            if kind(v) == JsonKind::Null {
                Ok(None)
            } else {
                match texts_at(v, prefix, key) {
                    Ok(items) => Ok(Some(items)),
                    Err(e) => Err(e),
                }
            }
        },
        None => Ok(None),
    }
}

pub(crate) fn texts(entries: &Vec<(&String, &Value)>, prefix: &str, key: &str) -> (r: Result<
    Vec<String>,
    ParseError,
>)
    ensures
        outcome(r) == texts_in(borrowed_model(entries@), prefix@, key@),
{
    proof {
        reveal(texts_in);
    }
    match find(entries, key) {
        Some(v) => texts_at(v, prefix, key),
        None => {
            let out: Vec<String> = Vec::new();
            assert(out.deep_view() =~= Seq::<Seq<char>>::empty());
            Ok(out)
        },
    }
}

pub(crate) fn opt_text_map(entries: &Vec<(&String, &Value)>, prefix: &str, key: &str) -> (r: Result<
    Option<Vec<(String, String)>>,
    ParseError,
>)
    ensures
        outcome(r) == opt_text_map_in(borrowed_model(entries@), prefix@, key@),
        r is Ok && r->Ok_0 is Some ==> distinct_names(r->Ok_0->0.deep_view()),
{
    proof {
        reveal(opt_text_map_in);
    }
    match find(entries, key) {
        Some(v) => {
            if kind(v) == JsonKind::Null {
                Ok(None)
            } else {
                match text_map_at(v, prefix, key) {
                    Ok(items) => Ok(Some(items)),
                    Err(e) => Err(e),
                }
            }
        },
        None => Ok(None),
    }
}

pub(crate) fn text_map(entries: &Vec<(&String, &Value)>, prefix: &str, key: &str) -> (r: Result<
    Vec<(String, String)>,
    ParseError,
>)
    ensures
        outcome(r) == text_map_in(borrowed_model(entries@), prefix@, key@),
        r is Ok ==> distinct_names(r->Ok_0.deep_view()),
{
    proof {
        reveal(text_map_in);
    }
    match find(entries, key) {
        Some(v) => text_map_at(v, prefix, key),
        None => {
            let out: Vec<(String, String)> = Vec::new();
            assert(out.deep_view() =~= Seq::<(Seq<char>, Seq<char>)>::empty());
            Ok(out)
        },
    }
}

/// The array of strings that stands for a list of texts.
pub open spec fn texts_json(items: Seq<Seq<char>>) -> JsonModel {
    JsonModel::Array(Seq::new(items.len(), |i: int| JsonModel::String(items[i])))
}

/// The members that stand for the entries of a mapping from names to texts.
pub open spec fn text_members(entries: Seq<(Seq<char>, Seq<char>)>) -> Members {
    Seq::new(entries.len(), |i: int| (entries[i].0, JsonModel::String(entries[i].1)))
}

/// The object into which the members are inserted one after the other.
pub open spec fn object_json(m: Members) -> JsonModel {
    JsonModel::Object(upsert_all(m))
}

/// The object that stands for a mapping from names to texts.
pub open spec fn text_map_json(entries: Seq<(Seq<char>, Seq<char>)>) -> JsonModel {
    object_json(text_members(entries))
}

/// The member written for an optional value: none for `None`.
pub open spec fn opt_member(key: Seq<char>, value: Option<JsonModel>) -> Members {
    match value {
        Some(j) => seq![(key, j)],
        None => Seq::empty(),
    }
}

/// What is written under `key` for a text: nothing where it is unset.
pub open spec fn text_field(key: Seq<char>, value: Option<Seq<char>>) -> Members {
    match value {
        Some(s) => seq![(key, JsonModel::String(s))],
        None => Seq::empty(),
    }
}

/// What is written under `key` for a flag: nothing where it is unset.
pub open spec fn flag_field(key: Seq<char>, value: Option<bool>) -> Members {
    match value {
        Some(b) => seq![(key, JsonModel::Bool(b))],
        None => Seq::empty(),
    }
}

/// What is written under `key` for a count: nothing where it is unset.
pub open spec fn count_field(key: Seq<char>, value: Option<u32>) -> Members {
    match value {
        Some(n) => seq![(key, JsonModel::Number(NumberModel::Unsigned(n as u64)))],
        None => Seq::empty(),
    }
}

/// A list field is written unless the list is empty.
pub open spec fn texts_field(key: Seq<char>, value: Seq<Seq<char>>) -> Members {
    if value.len() == 0 {
        Seq::empty()
    } else {
        seq![(key, texts_json(value))]
    }
}

/// An optional list field is written whenever it is set, empty or not.
pub open spec fn opt_texts_field(key: Seq<char>, value: Option<Seq<Seq<char>>>) -> Members {
    match value {
        Some(items) => seq![(key, texts_json(items))],
        None => Seq::empty(),
    }
}

/// A mapping field is written unless the mapping is empty.
pub open spec fn text_map_field(key: Seq<char>, value: Seq<(Seq<char>, Seq<char>)>) -> Members {
    if value.len() == 0 {
        Seq::empty()
    } else {
        seq![(key, text_map_json(value))]
    }
}

/// An optional mapping field is written whenever it is set, empty or not.
pub open spec fn opt_text_map_field(
    key: Seq<char>,
    value: Option<Seq<(Seq<char>, Seq<char>)>>,
) -> Members {
    match value {
        Some(entries) => seq![(key, text_map_json(entries))],
        None => Seq::empty(),
    }
}

pub(crate) fn put(entries: &mut Vec<(String, Value)>, key: &str, value: Value)
    ensures
        members_model(final(entries)@) == members_model(old(entries)@) + seq![
            (key@, value_model(value)),
        ],
{
    entries.push((key.to_owned(), value));
    assert(members_model(entries@) =~= members_model(old(entries)@) + seq![
        (key@, value_model(value)),
    ]);
}

pub(crate) fn texts_value(items: &Vec<String>) -> (r: Value)
    ensures
        value_model(r) == texts_json(items.deep_view()),
{
    let mut out: Vec<Value> = Vec::new();
    let mut i: usize = 0;
    while i < items.len()
        invariant
            i <= items.len(),
            out.len() == i,
            forall|k: int| 0 <= k < i ==> value_model(#[trigger] out[k]) == JsonModel::String(items[k]@),
        decreases items.len() - i,
    {
        out.push(text_value(items[i].as_str()));
        i += 1;
    }
    assert(items_model(out@) =~= texts_json(items.deep_view())->Array_0);
    array_value(out)
}

pub(crate) fn text_map_value(entries: &Vec<(String, String)>) -> (r: Value)
    ensures
        value_model(r) == text_map_json(entries.deep_view()),
{
    let mut out: Vec<(String, Value)> = Vec::new();
    let mut i: usize = 0;
    while i < entries.len()
        invariant
            i <= entries.len(),
            out.len() == i,
            forall|k: int|
                0 <= k < i ==> (#[trigger] out[k]).0@ == entries[k].0@ && value_model(out[k].1)
                    == JsonModel::String(entries[k].1@),
        decreases entries.len() - i,
    {
        out.push((entries[i].0.clone(), text_value(entries[i].1.as_str())));
        i += 1;
    }
    assert(members_model(out@) =~= text_members(entries.deep_view()));
    object_value(out)
}

pub(crate) fn put_text(entries: &mut Vec<(String, Value)>, key: &str, value: &Option<String>)
    ensures
        members_model(final(entries)@) == members_model(old(entries)@) + text_field(
            key@,
            value.deep_view(),
        ),
{
    match value {
        Some(s) => put(entries, key, text_value(s.as_str())),
        None => {
            assert(members_model(entries@) =~= members_model(entries@) + Seq::empty());
        },
    }
}

pub(crate) fn put_flag(entries: &mut Vec<(String, Value)>, key: &str, value: &Option<bool>)
    ensures
        members_model(final(entries)@) == members_model(old(entries)@) + flag_field(
            key@,
            value.deep_view(),
        ),
{
    match value {
        Some(b) => put(entries, key, bool_value(*b)),
        None => {
            assert(members_model(entries@) =~= members_model(entries@) + Seq::empty());
        },
    }
}

pub(crate) fn put_count(entries: &mut Vec<(String, Value)>, key: &str, value: &Option<u32>)
    ensures
        members_model(final(entries)@) == members_model(old(entries)@) + count_field(
            key@,
            value.deep_view(),
        ),
{
    match value {
        Some(n) => put(entries, key, number_value(*n)),
        None => {
            assert(members_model(entries@) =~= members_model(entries@) + Seq::empty());
        },
    }
}

pub(crate) fn put_texts(entries: &mut Vec<(String, Value)>, key: &str, value: &Vec<String>)
    ensures
        members_model(final(entries)@) == members_model(old(entries)@) + texts_field(
            key@,
            value.deep_view(),
        ),
{
    if value.len() == 0 {
        assert(members_model(entries@) =~= members_model(entries@) + Seq::empty());
    } else {
        put(entries, key, texts_value(value));
    }
}

pub(crate) fn put_opt_texts(
    entries: &mut Vec<(String, Value)>,
    key: &str,
    value: &Option<Vec<String>>,
)
    ensures
        members_model(final(entries)@) == members_model(old(entries)@) + opt_texts_field(
            key@,
            value.deep_view(),
        ),
{
    match value {
        Some(items) => put(entries, key, texts_value(items)),
        None => {
            assert(members_model(entries@) =~= members_model(entries@) + Seq::empty());
        },
    }
}

pub(crate) fn put_text_map(
    entries: &mut Vec<(String, Value)>,
    key: &str,
    value: &Vec<(String, String)>,
)
    ensures
        members_model(final(entries)@) == members_model(old(entries)@) + text_map_field(
            key@,
            value.deep_view(),
        ),
{
    if value.len() == 0 {
        assert(members_model(entries@) =~= members_model(entries@) + Seq::empty());
    } else {
        put(entries, key, text_map_value(value));
    }
}

pub(crate) fn put_opt_text_map(
    entries: &mut Vec<(String, Value)>,
    key: &str,
    value: &Option<Vec<(String, String)>>,
)
    ensures
        members_model(final(entries)@) == members_model(old(entries)@) + opt_text_map_field(
            key@,
            value.deep_view(),
        ),
{
    match value {
        Some(items) => put(entries, key, text_map_value(items)),
        None => {
            assert(members_model(entries@) =~= members_model(entries@) + Seq::empty());
        },
    }
}

/// Appends copies of the members `more`.
pub(crate) fn put_all(entries: &mut Vec<(String, Value)>, more: &Vec<(String, Value)>)
    ensures
        members_model(final(entries)@) == members_model(old(entries)@) + members_model(more@),
{
    let ghost start = members_model(entries@);
    let mut i: usize = 0;
    assert(start =~= start + members_model(more@).take(0));
    while i < more.len()
        invariant
            i <= more.len(),
            start == members_model(old(entries)@),
            members_model(entries@) == start + members_model(more@).take(i as int),
        decreases more.len() - i,
    {
        let ghost before = members_model(entries@);
        entries.push((more[i].0.clone(), more[i].1.clone()));
        assert(members_model(entries@) =~= before.push((more[i as int].0@, value_model(more[i as int].1))));
        assert(members_model(entries@) =~= start + members_model(more@).take(i + 1));
        i += 1;
    }
    assert(members_model(more@).take(more.len() as int) =~= members_model(more@));
}

} // verus!
