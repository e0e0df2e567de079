//! Facts about the members of JSON objects: looking a key up in members
//! that were written part by part, and inserting members whose keys
//! differ.

use vstd::prelude::*;
use crate::json::{
    JsonModel, Members, distinct_keys, member, member_from, position_from, upsert_all,
};

verus! {

/// Looking a key up from a position on finds the first member with the
/// key at or after that position.
pub proof fn lemma_member_from(m: Members, key: Seq<char>, from: int)
    requires
        0 <= from,
    ensures
        match member_from(m, key, from) {
            Some(v) => exists|i: int|
                from <= i < m.len() && #[trigger] m[i] == (key, v) && forall|k: int|
                    from <= k < i ==> (#[trigger] m[k]).0 != key,
            None => forall|k: int| from <= k < m.len() ==> (#[trigger] m[k]).0 != key,
        },
    decreases m.len() - from,
{
    if from < m.len() {
        if m[from].0 == key {
            assert(m[from] == (key, m[from].1));
        } else {
            lemma_member_from(m, key, from + 1);
            match member_from(m, key, from + 1) {
                Some(v) => {
                    let i = choose|i: int|
                        from + 1 <= i < m.len() && #[trigger] m[i] == (key, v) && forall|k: int|
                            from + 1 <= k < i ==> (#[trigger] m[k]).0 != key;
                    assert(from <= i < m.len() && m[i] == (key, v));
                },
                None => {},
            }
        }
    }
}

/// Where the first member with the key stands at `i`, the lookup gives its
/// value.
pub proof fn lemma_member_at(m: Members, key: Seq<char>, from: int, i: int)
    requires
        0 <= from <= i < m.len(),
        m[i].0 == key,
        forall|k: int| from <= k < i ==> (#[trigger] m[k]).0 != key,
    ensures
        member_from(m, key, from) == Some(m[i].1),
    decreases i - from,
{
    if from < i {
        lemma_member_at(m, key, from + 1, i);
    }
}

/// Looking a key up in members that are followed by others: what the
/// first part holds for the key wins.
pub proof fn lemma_member_append(a: Members, b: Members, key: Seq<char>)
    ensures
        member(a + b, key) == (if member(a, key) is Some {
            member(a, key)
        } else {
            member(b, key)
        }),
{
    let ab = a + b;
    lemma_member_from(a, key, 0);
    lemma_member_from(b, key, 0);
    match member(a, key) {
        Some(v) => {
            let i = choose|i: int|
                0 <= i < a.len() && #[trigger] a[i] == (key, v) && forall|k: int|
                    0 <= k < i ==> (#[trigger] a[k]).0 != key;
            assert forall|k: int| 0 <= k < i implies (#[trigger] ab[k]).0 != key by {
                assert(ab[k] == a[k]);
            }
            assert(ab[i] == a[i]);
            lemma_member_at(ab, key, 0, i);
        },
        None => {
            match member(b, key) {
                Some(v) => {
                    let i = choose|i: int|
                        0 <= i < b.len() && #[trigger] b[i] == (key, v) && forall|k: int|
                            0 <= k < i ==> (#[trigger] b[k]).0 != key;
                    assert forall|k: int| 0 <= k < a.len() + i implies (#[trigger] ab[k]).0
                        != key by {
                        if k < a.len() {
                            assert(ab[k] == a[k]);
                        } else {
                            assert(ab[k] == b[k - a.len()]);
                        }
                    }
                    assert(ab[a.len() + i] == b[i]);
                    lemma_member_at(ab, key, 0, a.len() + i);
                },
                None => {
                    lemma_member_from(ab, key, 0);
                    if member(ab, key) is Some {
                        let v = member(ab, key)->0;
                        let i = choose|i: int|
                            0 <= i < ab.len() && #[trigger] ab[i] == (key, v) && forall|k: int|
                                0 <= k < i ==> (#[trigger] ab[k]).0 != key;
                        if i < a.len() {
                            assert(ab[i] == a[i]);
                        } else {
                            assert(ab[i] == b[i - a.len()]);
                        }
                    }
                },
            }
        },
    }
}

/// A key that no member has is found at no position.
pub proof fn lemma_position_none(m: Members, key: Seq<char>, from: int)
    requires
        0 <= from,
        forall|k: int| from <= k < m.len() ==> (#[trigger] m[k]).0 != key,
    ensures
        position_from(m, key, from) is None,
    decreases m.len() - from,
{
    if from < m.len() {
        lemma_position_none(m, key, from + 1);
    }
}

/// Inserting members whose keys all differ leaves them as they are.
pub proof fn lemma_upsert_all_distinct(m: Members)
    requires
        distinct_keys(m),
    ensures
        upsert_all(m) == m,
    decreases m.len(),
{
    if m.len() > 0 {
        let front = m.drop_last();
        lemma_upsert_all_distinct(front);
        assert forall|k: int| 0 <= k < front.len() implies (#[trigger] front[k]).0 != m.last().0 by {
            assert(front[k] == m[k]);
        }
        lemma_position_none(front, m.last().0, 0);
        assert(front.push(m.last()) =~= m);
    }
}

/// A part of an object under one key: no member, or one member with that
/// key.
pub open spec fn part_of_key(part: Members, key: Seq<char>) -> bool {
    part.len() == 0 || (part.len() == 1 && part[0].0 == key)
}

/// The value that a part holds, if it holds one.
pub open spec fn part_value(part: Members) -> Option<JsonModel> {
    if part.len() == 0 {
        None
    } else {
        Some(part[0].1)
    }
}

/// The first `n` parts, one after the other.
pub open spec fn joined(parts: spec_fn(int) -> Members, n: int) -> Members
    decreases n,
{
    if n <= 0 {
        Seq::empty()
    } else if n == 1 {
        parts(0)
    } else {
        joined(parts, n - 1) + parts(n - 1)
    }
}

/// Parts under keys that all differ, one after the other: every member
/// has the key of its part, no key occurs twice, and looking the key of a
/// part up gives the value of that part.
pub proof fn lemma_joined(parts: spec_fn(int) -> Members, keys: spec_fn(int) -> Seq<char>, n: int)
    requires
        0 <= n,
        forall|i: int| 0 <= i < n ==> part_of_key(#[trigger] parts(i), keys(i)),
        forall|i: int, j: int| 0 <= i < j < n ==> #[trigger] keys(i) != #[trigger] keys(j),
    ensures
        distinct_keys(joined(parts, n)),
        forall|k: int|
            0 <= k < joined(parts, n).len() ==> exists|i: int|
                0 <= i < n && #[trigger] keys(i) == (#[trigger] joined(parts, n)[k]).0,
        forall|i: int| 0 <= i < n ==> member(joined(parts, n), #[trigger] keys(i)) == part_value(parts(i)),
        forall|key: Seq<char>|
            (forall|i: int| 0 <= i < n ==> #[trigger] keys(i) != key) ==> #[trigger] member(
                joined(parts, n),
                key,
            ) is None,
    decreases n,
{
    if n > 0 {
        lemma_joined(parts, keys, n - 1);
        let front = joined(parts, n - 1);
        let last = parts(n - 1);
        let all = front + last;
        assert(joined(parts, n) =~= all);
        assert(part_of_key(last, keys(n - 1)));
        assert forall|k: int| 0 <= k < all.len() implies exists|i: int|
            0 <= i < n && #[trigger] keys(i) == (#[trigger] all[k]).0 by {
            if k < front.len() {
                assert(all[k] == front[k]);
                let i = choose|i: int| 0 <= i < n - 1 && #[trigger] keys(i) == front[k].0;
                assert(0 <= i < n && keys(i) == all[k].0);
            } else {
                assert(all[k] == last[0]);
                assert(keys(n - 1) == all[k].0);
            }
        }
        assert forall|a: int, b: int| 0 <= a < b < all.len() implies all[a].0 != all[b].0 by {
            assert(all[a] == front[a]);
            if b < front.len() {
                assert(all[b] == front[b]);
            } else {
                assert(all[b] == last[0]);
                let i = choose|i: int| 0 <= i < n - 1 && #[trigger] keys(i) == front[a].0;
                assert(keys(i) != keys(n - 1));
            }
        }
        assert forall|i: int| 0 <= i < n implies member(all, #[trigger] keys(i)) == part_value(
            parts(i),
        ) by {
            lemma_member_append(front, last, keys(i));
            lemma_member_from(last, keys(i), 0);
            if i < n - 1 {
                assert(keys(i) != keys(n - 1));
                assert(part_of_key(parts(i), keys(i)));
            } else {
                assert forall|j: int| 0 <= j < n - 1 implies #[trigger] keys(j) != keys(n - 1) by {}
                assert(member(front, keys(n - 1)) is None);
                if last.len() == 1 {
                    lemma_member_at(last, keys(i), 0, 0);
                }
            }
        }
        assert forall|key: Seq<char>|
            (forall|i: int| 0 <= i < n ==> #[trigger] keys(i) != key) implies #[trigger] member(
            all,
            key,
        ) is None by {
            lemma_member_append(front, last, key);
            lemma_member_from(last, key, 0);
            assert(keys(n - 1) != key);
            assert(forall|i: int| 0 <= i < n - 1 ==> #[trigger] keys(i) != key);
        }
    }
}

/// Those of the first `n` members whose key is not known, in order.
pub open spec fn unknown_upto(m: Members, known: spec_fn(Seq<char>) -> bool, n: int) -> Members
    decreases n,
{
    if n <= 0 {
        Seq::empty()
    } else if known(m[n - 1].0) {
        unknown_upto(m, known, n - 1)
    } else {
        unknown_upto(m, known, n - 1).push(m[n - 1])
    }
}

/// The members whose key is not known, in order.
pub open spec fn unknown_members(m: Members, known: spec_fn(Seq<char>) -> bool) -> Members {
    unknown_upto(m, known, m.len() as int)
}

/// Each of the members kept from the first `n` is one of those, none has
/// a known key, and they hold no key twice where the members hold none
/// twice.
pub proof fn lemma_unknown_upto(m: Members, known: spec_fn(Seq<char>) -> bool, n: int)
    requires
        0 <= n <= m.len(),
    ensures
        forall|i: int|
            0 <= i < unknown_upto(m, known, n).len() ==> !known(
                (#[trigger] unknown_upto(m, known, n)[i]).0,
            ),
        forall|i: int|
            0 <= i < unknown_upto(m, known, n).len() ==> exists|k: int|
                0 <= k < n && m[k] == #[trigger] unknown_upto(m, known, n)[i],
        distinct_keys(m) ==> distinct_keys(unknown_upto(m, known, n)),
    decreases n,
{
    if n > 0 {
        lemma_unknown_upto(m, known, n - 1);
        let front = unknown_upto(m, known, n - 1);
        if !known(m[n - 1].0) {
            let all = front.push(m[n - 1]);
            assert(unknown_upto(m, known, n) == all);
            assert forall|i: int| 0 <= i < all.len() implies exists|k: int|
                0 <= k < n && m[k] == #[trigger] all[i] by {
                if i < front.len() {
                    let k = choose|k: int| 0 <= k < n - 1 && m[k] == front[i];
                    assert(m[k] == all[i]);
                } else {
                    assert(m[n - 1] == all[i]);
                }
            }
            if distinct_keys(m) {
                assert forall|i: int, j: int| 0 <= i < j < all.len() implies all[i].0 != all[j].0 by {
                    if j < front.len() {
                        assert(front[i].0 != front[j].0);
                    } else {
                        let k = choose|k: int| 0 <= k < n - 1 && m[k] == front[i];
                        assert(m[k].0 != m[n - 1].0);
                    }
                }
            }
        }
    }
}

/// The members that are kept beside the known ones hold no known key, and
/// hold no key twice where the members hold none twice.
pub proof fn lemma_unknown_members(m: Members, known: spec_fn(Seq<char>) -> bool)
    ensures
        forall|i: int|
            0 <= i < unknown_members(m, known).len() ==> !known(
                (#[trigger] unknown_members(m, known)[i]).0,
            ),
        distinct_keys(m) ==> distinct_keys(unknown_members(m, known)),
{
    lemma_unknown_upto(m, known, m.len() as int);
}

/// Of members with known keys, followed by members with unknown keys, the
/// members kept among the first `n` are those of the second part.
pub proof fn lemma_unknown_upto_after(
    front: Members,
    rest: Members,
    known: spec_fn(Seq<char>) -> bool,
    n: int,
)
    requires
        0 <= n <= front.len() + rest.len(),
        forall|k: int| 0 <= k < front.len() ==> known((#[trigger] front[k]).0),
        forall|k: int| 0 <= k < rest.len() ==> !known((#[trigger] rest[k]).0),
    ensures
        unknown_upto(front + rest, known, n) == (if n <= front.len() {
            Seq::empty()
        } else {
            rest.take(n - front.len())
        }),
    decreases n,
{
    let all = front + rest;
    if n > 0 {
        lemma_unknown_upto_after(front, rest, known, n - 1);
        if n <= front.len() {
            assert(all[n - 1] == front[n - 1]);
        } else {
            assert(all[n - 1] == rest[n - 1 - front.len()]);
            assert(rest.take(n - 1 - front.len()).push(rest[n - 1 - front.len()]) =~= rest.take(
                n - front.len(),
            ));
            if n - 1 == front.len() {
                assert(rest.take(0) =~= Seq::empty());
            }
        }
    }
}

/// Parts under known keys that all differ, followed by members with
/// unknown keys: looking the key of a part up gives the value of that
/// part, the members with unknown keys are those that follow, and no key
/// occurs twice unless one does among those.
pub proof fn lemma_joined_and_rest(
    parts: spec_fn(int) -> Members,
    keys: spec_fn(int) -> Seq<char>,
    n: int,
    rest: Members,
    known: spec_fn(Seq<char>) -> bool,
)
    requires
        0 <= n,
        forall|i: int| 0 <= i < n ==> part_of_key(#[trigger] parts(i), keys(i)),
        forall|i: int, j: int| 0 <= i < j < n ==> #[trigger] keys(i) != #[trigger] keys(j),
        forall|i: int| 0 <= i < n ==> known(#[trigger] keys(i)),
        forall|k: int| 0 <= k < rest.len() ==> !known((#[trigger] rest[k]).0),
    ensures
        distinct_keys(rest) ==> distinct_keys(joined(parts, n) + rest),
        forall|i: int|
            0 <= i < n ==> member(joined(parts, n) + rest, #[trigger] keys(i)) == part_value(
                parts(i),
            ),
        unknown_members(joined(parts, n) + rest, known) == rest,
{
    let front = joined(parts, n);
    let all = front + rest;
    lemma_joined(parts, keys, n);
    assert forall|k: int| 0 <= k < front.len() implies known((#[trigger] front[k]).0) by {
        let i = choose|i: int| 0 <= i < n && #[trigger] keys(i) == front[k].0;
        assert(known(keys(i)));
    }
    if distinct_keys(rest) {
        assert forall|a: int, b: int| 0 <= a < b < all.len() implies all[a].0 != all[b].0 by {
            if b < front.len() {
                assert(all[a] == front[a] && all[b] == front[b]);
            } else if a < front.len() {
                assert(all[a] == front[a] && all[b] == rest[b - front.len()]);
                assert(known(front[a].0));
            } else {
                assert(all[a] == rest[a - front.len()] && all[b] == rest[b - front.len()]);
            }
        }
    }
    assert forall|i: int| 0 <= i < n implies member(all, #[trigger] keys(i)) == part_value(
        parts(i),
    ) by {
        lemma_member_append(front, rest, keys(i));
        lemma_member_from(rest, keys(i), 0);
        assert(known(keys(i)));
        if member(rest, keys(i)) is Some {
            let v = member(rest, keys(i))->0;
            let k = choose|k: int| 0 <= k < rest.len() && #[trigger] rest[k] == (keys(i), v);
            assert(!known(rest[k].0));
        }
    }
    lemma_unknown_upto_after(front, rest, known, all.len() as int);
    assert(rest.take(rest.len() as int) =~= rest);
}

} // verus!
