//! What is written for a field reads back as the field.

use vstd::prelude::*;
use crate::error::ParseErrorModel;
use crate::fields::{
    count_field, distinct_names, flag_field, opt_count_in, opt_flag_in, opt_text_in,
    opt_text_map_field, opt_text_map_in, opt_texts_field, opt_texts_in, present, req_flag_in,
    req_text_in, text_field, text_map_field, text_map_in, text_map_json, text_map_of, text_map_upto,
    text_members, texts_field, texts_in, texts_json, texts_of, texts_upto,
};
use crate::json::{JsonModel, Members, distinct_keys, keys_differ, member};
use crate::members::{lemma_member_from, lemma_upsert_all_distinct, part_value};

verus! {

/// The first `n` strings of an array written for a list of texts read back
/// as the first `n` texts.
pub proof fn lemma_texts_upto(items: Seq<Seq<char>>, path: Seq<char>, n: int)
    requires
        0 <= n <= items.len(),
    ensures
        texts_upto(texts_json(items)->Array_0, path, n) == Ok::<Seq<Seq<char>>, ParseErrorModel>(
            items.take(n),
        ),
    decreases n,
{
    if n > 0 {
        lemma_texts_upto(items, path, n - 1);
        assert(items.take(n - 1).push(items[n - 1]) =~= items.take(n));
    } else {
        assert(items.take(0) =~= Seq::empty());
    }
}

/// The array written for a list of texts reads back as the list.
pub proof fn lemma_texts_round_trip(items: Seq<Seq<char>>, path: Seq<char>)
    ensures
        texts_of(texts_json(items), path) == Ok::<Seq<Seq<char>>, ParseErrorModel>(items),
{
    lemma_texts_upto(items, path, items.len() as int);
    assert(items.take(items.len() as int) =~= items);
}

/// The first `n` members written for a mapping read back as its first `n`
/// entries.
pub proof fn lemma_text_map_upto(
    entries: Seq<(Seq<char>, Seq<char>)>,
    path: Seq<char>,
    n: int,
)
    requires
        0 <= n <= entries.len(),
    ensures
        text_map_upto(text_members(entries), path, n) == Ok::<
            Seq<(Seq<char>, Seq<char>)>,
            ParseErrorModel,
        >(entries.take(n)),
    decreases n,
{
    if n > 0 {
        lemma_text_map_upto(entries, path, n - 1);
        assert(entries.take(n - 1).push(entries[n - 1]) =~= entries.take(n));
    } else {
        assert(entries.take(0) =~= Seq::empty());
    }
}

/// The object written for a mapping that holds no name twice reads back
/// as the mapping.
pub proof fn lemma_text_map_round_trip(entries: Seq<(Seq<char>, Seq<char>)>, path: Seq<char>)
    requires
        distinct_names(entries),
    ensures
        text_map_json(entries) == JsonModel::Object(text_members(entries)),
        text_map_of(text_map_json(entries), path) == Ok::<
            Seq<(Seq<char>, Seq<char>)>,
            ParseErrorModel,
        >(entries),
{
    assert(distinct_keys(text_members(entries)));
    lemma_upsert_all_distinct(text_members(entries));
    lemma_text_map_upto(entries, path, entries.len() as int);
    assert(entries.take(entries.len() as int) =~= entries);
}

/// An optional text reads back from what was written for it.
pub proof fn lemma_text_field(
    m: Members,
    prefix: Seq<char>,
    key: Seq<char>,
    value: Option<Seq<char>>,
)
    requires
        member(m, key) == part_value(text_field(key, value)),
    ensures
        opt_text_in(m, prefix, key) == Ok::<Option<Seq<char>>, ParseErrorModel>(value),
{
    reveal(opt_text_in);
}

/// A required text reads back from what was written for it.
pub proof fn lemma_required_text_field(
    m: Members,
    prefix: Seq<char>,
    key: Seq<char>,
    value: Seq<char>,
)
    requires
        member(m, key) == part_value(text_field(key, Some(value))),
    ensures
        req_text_in(m, prefix, key) == Ok::<Seq<char>, ParseErrorModel>(value),
{
    reveal(req_text_in);
}

/// A required flag reads back from what was written for it.
pub proof fn lemma_required_flag_field(m: Members, prefix: Seq<char>, key: Seq<char>, value: bool)
    requires
        member(m, key) == part_value(flag_field(key, Some(value))),
    ensures
        req_flag_in(m, prefix, key) == Ok::<bool, ParseErrorModel>(value),
{
    reveal(req_flag_in);
}

/// An optional flag reads back from what was written for it.
pub proof fn lemma_flag_field(m: Members, prefix: Seq<char>, key: Seq<char>, value: Option<bool>)
    requires
        member(m, key) == part_value(flag_field(key, value)),
    ensures
        opt_flag_in(m, prefix, key) == Ok::<Option<bool>, ParseErrorModel>(value),
{
    reveal(opt_flag_in);
}

/// An optional count reads back from what was written for it.
pub proof fn lemma_count_field(m: Members, prefix: Seq<char>, key: Seq<char>, value: Option<u32>)
    requires
        member(m, key) == part_value(count_field(key, value)),
    ensures
        opt_count_in(m, prefix, key) == Ok::<Option<u32>, ParseErrorModel>(value),
{
    reveal(opt_count_in);
}

/// A list of texts reads back from what was written for it; an empty list,
/// for which nothing is written, reads back as empty.
pub proof fn lemma_texts_field(m: Members, prefix: Seq<char>, key: Seq<char>, value: Seq<Seq<char>>)
    requires
        member(m, key) == part_value(texts_field(key, value)),
    ensures
        texts_in(m, prefix, key) == Ok::<Seq<Seq<char>>, ParseErrorModel>(value),
{
    reveal(texts_in);
    if value.len() == 0 {
        assert(value =~= Seq::empty());
    } else {
        lemma_texts_round_trip(value, crate::error::path_of(prefix, key));
    }
}

/// An optional list of texts reads back from what was written for it.
pub proof fn lemma_opt_texts_field(
    m: Members,
    prefix: Seq<char>,
    key: Seq<char>,
    value: Option<Seq<Seq<char>>>,
)
    requires
        member(m, key) == part_value(opt_texts_field(key, value)),
    ensures
        opt_texts_in(m, prefix, key) == Ok::<Option<Seq<Seq<char>>>, ParseErrorModel>(value),
{
    reveal(opt_texts_in);
    if value is Some {
        lemma_texts_round_trip(value->0, crate::error::path_of(prefix, key));
    }
}

/// A mapping that holds no name twice reads back from what was written
/// for it; an empty mapping, for which nothing is written, reads back as
/// empty.
pub proof fn lemma_text_map_field(
    m: Members,
    prefix: Seq<char>,
    key: Seq<char>,
    value: Seq<(Seq<char>, Seq<char>)>,
)
    requires
        member(m, key) == part_value(text_map_field(key, value)),
        distinct_names(value),
    ensures
        text_map_in(m, prefix, key) == Ok::<Seq<(Seq<char>, Seq<char>)>, ParseErrorModel>(value),
{
    reveal(text_map_in);
    if value.len() == 0 {
        assert(value =~= Seq::empty());
    } else {
        lemma_text_map_round_trip(value, crate::error::path_of(prefix, key));
    }
}

/// An optional mapping that holds no name twice reads back from what was
/// written for it.
pub proof fn lemma_opt_text_map_field(
    m: Members,
    prefix: Seq<char>,
    key: Seq<char>,
    value: Option<Seq<(Seq<char>, Seq<char>)>>,
)
    requires
        member(m, key) == part_value(opt_text_map_field(key, value)),
        value is Some ==> distinct_names(value->0),
    ensures
        opt_text_map_in(m, prefix, key) == Ok::<
            Option<Seq<(Seq<char>, Seq<char>)>>,
            ParseErrorModel,
        >(value),
{
    reveal(opt_text_map_in);
    if value is Some {
        lemma_text_map_round_trip(value->0, crate::error::path_of(prefix, key));
    }
}

/// The entries read from the members of an object carry the keys of the
/// members, in order.
pub proof fn lemma_text_map_keys(m: Members, path: Seq<char>, n: int)
    requires
        0 <= n <= m.len(),
        text_map_upto(m, path, n) is Ok,
    ensures
        text_map_upto(m, path, n)->Ok_0.len() == n,
        forall|k: int| 0 <= k < n ==> (#[trigger] text_map_upto(m, path, n)->Ok_0[k]).0 == m[k].0,
    decreases n,
{
    if n > 0 {
        lemma_text_map_keys(m, path, n - 1);
    }
}

/// A mapping read from an object in which no key occurs twice holds no
/// name twice.
pub proof fn lemma_text_map_names(j: JsonModel, path: Seq<char>)
    requires
        keys_differ(j),
        text_map_of(j, path) is Ok,
    ensures
        distinct_names(text_map_of(j, path)->Ok_0),
{
    let m = j->Object_0;
    lemma_text_map_keys(m, path, m.len() as int);
}

/// The value of a member of an object in which no key occurs twice, at any
/// depth, is such a value too.
pub proof fn lemma_member_keys_differ(m: Members, key: Seq<char>)
    requires
        keys_differ(JsonModel::Object(m)),
    ensures
        keys_differ(present(member(m, key))),
{
    lemma_member_from(m, key, 0);
    if member(m, key) is Some {
        let v = member(m, key)->0;
        let i = choose|i: int| 0 <= i < m.len() && #[trigger] m[i] == (key, v);
        assert(keys_differ(m[i].1));
    }
}

/// A mapping field read from a document in which no key occurs twice
/// holds no name twice.
pub proof fn lemma_text_map_in_names(m: Members, prefix: Seq<char>, key: Seq<char>)
    requires
        keys_differ(JsonModel::Object(m)),
        text_map_in(m, prefix, key) is Ok,
    ensures
        distinct_names(text_map_in(m, prefix, key)->Ok_0),
{
    reveal(text_map_in);
    lemma_member_keys_differ(m, key);
    if member(m, key) is Some {
        lemma_text_map_names(present(member(m, key)), crate::error::path_of(prefix, key));
    }
}

/// An optional mapping field read from a document in which no key occurs
/// twice holds no name twice.
pub proof fn lemma_opt_text_map_in_names(m: Members, prefix: Seq<char>, key: Seq<char>)
    requires
        keys_differ(JsonModel::Object(m)),
        opt_text_map_in(m, prefix, key) is Ok,
        opt_text_map_in(m, prefix, key)->Ok_0 is Some,
    ensures
        distinct_names(opt_text_map_in(m, prefix, key)->Ok_0->0),
{
    reveal(opt_text_map_in);
    lemma_member_keys_differ(m, key);
    lemma_text_map_names(present(member(m, key)), crate::error::path_of(prefix, key));
}

/// Reading a list of texts fails with a shape mismatch only.
pub proof fn lemma_texts_failure(items: Seq<JsonModel>, path: Seq<char>, n: int)
    ensures
        texts_upto(items, path, n) is Err ==> texts_upto(items, path, n)->Err_0 is ShapeMismatch,
    decreases n,
{
    if n > 0 {
        lemma_texts_failure(items, path, n - 1);
    }
}

} // verus!
