use vstd::prelude::*;
use crate::ident::Ident;
use crate::text::text_eq;

verus! {

/// The mapping that a run of key/value pairs builds up when each pair in turn
/// is written into it: of two pairs with one key, the later one stays.
pub open spec fn fold_pairs<V>(pairs: Seq<(Seq<char>, V)>) -> Map<Seq<char>, V>
    decreases pairs.len(),
{
    if pairs.len() == 0 {
        Map::empty()
    } else {
        fold_pairs(pairs.drop_last()).insert(pairs.last().0, pairs.last().1)
    }
}

/// Whether no key occurs twice among the pairs.
pub open spec fn distinct_keys<V>(pairs: Seq<(Seq<char>, V)>) -> bool {
    forall|i: int, j: int| 0 <= i < j < pairs.len() ==> pairs[i].0 != pairs[j].0
}

/// Whether `key` is the key of one of the pairs.
pub open spec fn has_key<V>(pairs: Seq<(Seq<char>, V)>, key: Seq<char>) -> bool {
    exists|i: int| 0 <= i < pairs.len() && #[trigger] pairs[i].0 == key
}

/// Whether the pair at `i` is the last one with its key.
pub open spec fn is_last_of_key<V>(pairs: Seq<(Seq<char>, V)>, i: int) -> bool {
    0 <= i < pairs.len() && forall|j: int| i < j < pairs.len() ==> pairs[j].0 != pairs[i].0
}

/// The mapping is defined on the supplied keys and on nothing else.
pub proof fn lemma_fold_keys<V>(pairs: Seq<(Seq<char>, V)>, key: Seq<char>)
    ensures
        fold_pairs(pairs).dom().contains(key) <==> has_key(pairs, key),
    decreases pairs.len(),
{
    if pairs.len() > 0 {
        let front = pairs.drop_last();
        lemma_fold_keys(front, key);
        if has_key(pairs, key) {
            let i = choose|i: int| 0 <= i < pairs.len() && #[trigger] pairs[i].0 == key;
            if i < pairs.len() - 1 {
                assert(front[i].0 == key);
            }
        }
        if has_key(front, key) {
            let i = choose|i: int| 0 <= i < front.len() && #[trigger] front[i].0 == key;
            assert(pairs[i].0 == key);
        }
        if pairs.last().0 == key {
            assert(pairs[pairs.len() - 1].0 == key);
        }
    }
}

/// Each supplied key maps to the value of the last pair that carries it.
pub proof fn lemma_fold_last_wins<V>(pairs: Seq<(Seq<char>, V)>, i: int)
    requires
        is_last_of_key(pairs, i),
    ensures
        fold_pairs(pairs).dom().contains(pairs[i].0),
        fold_pairs(pairs)[pairs[i].0] == pairs[i].1,
    decreases pairs.len(),
{
    if i < pairs.len() - 1 {
        let front = pairs.drop_last();
        assert(pairs.last().0 != pairs[i].0);
        assert(is_last_of_key(front, i)) by {
            assert forall|j: int| i < j < front.len() implies front[j].0 != front[i].0 by {
                assert(pairs[j].0 != pairs[i].0);
            }
        }
        lemma_fold_last_wins(front, i);
    }
}

/// The mapping is finite.
pub proof fn lemma_fold_finite<V>(pairs: Seq<(Seq<char>, V)>)
    ensures
        fold_pairs(pairs).dom().finite(),
    decreases pairs.len(),
{
    if pairs.len() > 0 {
        lemma_fold_finite(pairs.drop_last());
    }
}

/// Where no key occurs twice, the mapping has as many keys as there are pairs.
pub proof fn lemma_fold_len<V>(pairs: Seq<(Seq<char>, V)>)
    requires
        distinct_keys(pairs),
    ensures
        fold_pairs(pairs).dom().finite(),
        fold_pairs(pairs).dom().len() == pairs.len(),
    decreases pairs.len(),
{
    lemma_fold_finite(pairs);
    if pairs.len() > 0 {
        let front = pairs.drop_last();
        assert(distinct_keys(front)) by {
            assert forall|i: int, j: int| 0 <= i < j < front.len() implies front[i].0 != front[j].0 by {
                assert(pairs[i].0 != pairs[j].0);
            }
        }
        lemma_fold_len(front);
        lemma_fold_keys(front, pairs.last().0);
        if has_key(front, pairs.last().0) {
            let i = choose|i: int| 0 <= i < front.len() && #[trigger] front[i].0 == pairs.last().0;
            assert(pairs[i].0 != pairs[pairs.len() - 1].0);
        }
    }
}

/// Where no key occurs twice, putting a new value at one pair's place writes
/// that value under the pair's key and leaves the other keys as they were.
pub proof fn lemma_fold_replace<V>(pairs: Seq<(Seq<char>, V)>, i: int, value: V)
    requires
        distinct_keys(pairs),
        0 <= i < pairs.len(),
    ensures
        fold_pairs(pairs.update(i, (pairs[i].0, value))) == fold_pairs(pairs).insert(
            pairs[i].0,
            value,
        ),
        distinct_keys(pairs.update(i, (pairs[i].0, value))),
    decreases pairs.len(),
{
    let front = pairs.drop_last();
    let changed = pairs.update(i, (pairs[i].0, value));
    assert(distinct_keys(changed)) by {
        assert forall|a: int, b: int| 0 <= a < b < changed.len() implies changed[a].0
            != changed[b].0 by {
            assert(pairs[a].0 != pairs[b].0);
        }
    }
    if i == pairs.len() - 1 {
        assert(changed.drop_last() =~= front);
        assert(fold_pairs(changed) =~= fold_pairs(pairs).insert(pairs[i].0, value));
    } else {
        assert(distinct_keys(front)) by {
            assert forall|a: int, b: int| 0 <= a < b < front.len() implies front[a].0
                != front[b].0 by {
                assert(pairs[a].0 != pairs[b].0);
            }
        }
        lemma_fold_replace(front, i, value);
        assert(changed.drop_last() =~= front.update(i, (front[i].0, value)));
        assert(pairs[i].0 != pairs[pairs.len() - 1].0);
        assert(fold_pairs(changed) =~= fold_pairs(pairs).insert(pairs[i].0, value));
    }
}

/// Where no key occurs twice, the order of the pairs does not matter: two
/// runs that hold the same pairs build the same mapping.
pub proof fn lemma_fold_any_order<V>(p: Seq<(Seq<char>, V)>, q: Seq<(Seq<char>, V)>)
    requires
        distinct_keys(p),
        distinct_keys(q),
        forall|i: int| 0 <= i < p.len() ==> q.contains(#[trigger] p[i]),
        forall|j: int| 0 <= j < q.len() ==> p.contains(#[trigger] q[j]),
    ensures
        fold_pairs(p) == fold_pairs(q),
{
    assert forall|k: Seq<char>| fold_pairs(p).dom().contains(k) == fold_pairs(q).dom().contains(
        k,
    ) by {
        lemma_fold_keys(p, k);
        lemma_fold_keys(q, k);
        if has_key(p, k) {
            let i = choose|i: int| 0 <= i < p.len() && #[trigger] p[i].0 == k;
            assert(q.contains(p[i]));
            let j = choose|j: int| 0 <= j < q.len() && q[j] == p[i];
            assert(q[j].0 == k);
        }
        if has_key(q, k) {
            let j = choose|j: int| 0 <= j < q.len() && #[trigger] q[j].0 == k;
            assert(p.contains(q[j]));
            let i = choose|i: int| 0 <= i < p.len() && p[i] == q[j];
            assert(p[i].0 == k);
        }
    }
    assert forall|k: Seq<char>| fold_pairs(p).dom().contains(k) implies fold_pairs(p)[k]
        == fold_pairs(q)[k] by {
        lemma_fold_keys(p, k);
        let i = choose|i: int| 0 <= i < p.len() && #[trigger] p[i].0 == k;
        assert(q.contains(p[i]));
        let j = choose|j: int| 0 <= j < q.len() && q[j] == p[i];
        assert(is_last_of_key(p, i));
        assert(is_last_of_key(q, j));
        lemma_fold_last_wins(p, i);
        lemma_fold_last_wins(q, j);
    }
    assert(fold_pairs(p) =~= fold_pairs(q));
}

/// Where no key occurs twice, two runs of equal length build the same
/// mapping as soon as each pair of the first occurs in the second.
pub proof fn lemma_fold_equal<V>(p: Seq<(Seq<char>, V)>, q: Seq<(Seq<char>, V)>)
    requires
        distinct_keys(p),
        distinct_keys(q),
        p.len() == q.len(),
        forall|i: int| 0 <= i < p.len() ==> q.contains(#[trigger] p[i]),
    ensures
        fold_pairs(p) == fold_pairs(q),
{
    let a = fold_pairs(p);
    let b = fold_pairs(q);
    lemma_fold_len(p);
    lemma_fold_len(q);
    assert forall|k: Seq<char>| #[trigger] a.dom().contains(k) implies b.dom().contains(k) && a[k]
        == b[k] by {
        lemma_fold_keys(p, k);
        let i = choose|i: int| 0 <= i < p.len() && #[trigger] p[i].0 == k;
        assert(q.contains(p[i]));
        let j = choose|j: int| 0 <= j < q.len() && q[j] == p[i];
        assert(is_last_of_key(p, i));
        assert(is_last_of_key(q, j));
        lemma_fold_last_wins(p, i);
        lemma_fold_last_wins(q, j);
    }
    assert(a.dom().subset_of(b.dom()));
    vstd::set_lib::lemma_subset_equality(a.dom(), b.dom());
    assert(a =~= b);
}

/// Whether no two of the entries have keys of the same text.
pub open spec fn distinct_idents<'a, V>(entries: Seq<(Ident<'a>, V)>) -> bool {
    forall|i: int, j: int| 0 <= i < j < entries.len() ==> entries[i].0@ != entries[j].0@
}

/// The key texts of the entries, in order.
pub open spec fn key_texts<'a, V>(entries: Seq<(Ident<'a>, V)>) -> Seq<Seq<char>> {
    Seq::new(entries.len(), |i: int| entries[i].0@)
}

/// The keys in the order in which each is first seen.
pub open spec fn first_seen(keys: Seq<Seq<char>>) -> Seq<Seq<char>>
    decreases keys.len(),
{
    if keys.len() == 0 {
        Seq::empty()
    } else {
        let before = first_seen(keys.drop_last());
        if before.contains(keys.last()) {
            before
        } else {
            before.push(keys.last())
        }
    }
}

/// Where the entry with the key `key` stands, if there is one.
pub(crate) fn find<'a, V>(entries: &Vec<(Ident<'a>, V)>, key: &str) -> (at: Option<usize>)
    ensures
        match at {
            Some(i) => i < entries@.len() && entries@[i as int].0@ == key@,
            None => forall|j: int| 0 <= j < entries@.len() ==> entries@[j].0@ != key@,
        },
{
    let n: usize = entries.len();
    let mut i: usize = 0;
    while i < n
        invariant
            i <= n,
            n == entries@.len(),
            forall|j: int| 0 <= j < i ==> entries@[j].0@ != key@,
        decreases n - i,
    {
        if text_eq(entries[i].0.as_str(), key) {
            return Some(i);
        }
        i += 1;
    }
    None
}

/// Whether `after` is `before` with `value` written under `key`: in the place
/// of the entry that has this key, or, where none has it, behind the last.
pub open spec fn is_written<'a, V>(
    before: Seq<(Ident<'a>, V)>,
    key: Ident<'a>,
    value: V,
    after: Seq<(Ident<'a>, V)>,
) -> bool {
    ||| exists|i: int|
        0 <= i < before.len() && #[trigger] before[i].0@ == key@ && after == before.update(
            i,
            (key, value),
        )
    ||| {
        &&& forall|j: int| 0 <= j < before.len() ==> before[j].0@ != key@
        &&& after == before.push((key, value))
    }
}

/// Writes `value` under `key`, keeping every key single.
pub(crate) fn upsert<'a, V>(entries: &mut Vec<(Ident<'a>, V)>, key: Ident<'a>, value: V)
    requires
        distinct_idents(old(entries)@),
    ensures
        distinct_idents(final(entries)@),
        is_written(old(entries)@, key, value, final(entries)@),
{
    match find(entries, key.as_str()) {
        Some(i) => {
            entries.set(i, (key, value));
            assert(old(entries)@[i as int].0@ == key@);
        },
        None => {
            entries.push((key, value));
        },
    }
}

/// The key texts of the entries, each with what `hold` makes of its value.
pub open spec fn keyed<'a, V, M>(entries: Seq<(Ident<'a>, V)>, hold: spec_fn(V) -> M) -> Seq<
    (Seq<char>, M),
> {
    Seq::new(entries.len(), |i: int| (entries[i].0@, hold(entries[i].1)))
}

/// Entries with single keys give pairs with single keys.
pub proof fn lemma_keyed_distinct<'a, V, M>(entries: Seq<(Ident<'a>, V)>, hold: spec_fn(V) -> M)
    requires
        distinct_idents(entries),
    ensures
        distinct_keys(keyed(entries, hold)),
{
    let pairs = keyed(entries, hold);
    assert forall|a: int, b: int| 0 <= a < b < pairs.len() implies pairs[a].0 != pairs[b].0 by {
        assert(entries[a].0@ != entries[b].0@);
    }
}

/// Writing a value under a key of the entries writes what it holds under the
/// key's text in the mapping that the entries build.
pub proof fn lemma_written<'a, V, M>(
    before: Seq<(Ident<'a>, V)>,
    key: Ident<'a>,
    value: V,
    after: Seq<(Ident<'a>, V)>,
    hold: spec_fn(V) -> M,
)
    requires
        distinct_idents(before),
        is_written(before, key, value, after),
    ensures
        fold_pairs(keyed(after, hold)) == fold_pairs(keyed(before, hold)).insert(
            key@,
            hold(value),
        ),
{
    let pairs = keyed(before, hold);
    if exists|i: int|
        0 <= i < before.len() && #[trigger] before[i].0@ == key@ && after == before.update(
            i,
            (key, value),
        ) {
        let i = choose|i: int|
            0 <= i < before.len() && #[trigger] before[i].0@ == key@ && after == before.update(
                i,
                (key, value),
            );
        lemma_keyed_distinct(before, hold);
        lemma_fold_replace(pairs, i, hold(value));
        assert(keyed(after, hold) =~= pairs.update(i, (pairs[i].0, hold(value))));
    } else {
        assert(keyed(after, hold) =~= pairs.push((key@, hold(value))));
        assert(pairs.push((key@, hold(value))).drop_last() =~= pairs);
    }
}

/// Writing under a key that is there leaves the order of the keys as it is;
/// a new key goes behind the others.
pub proof fn lemma_written_keys<'a, V>(
    before: Seq<(Ident<'a>, V)>,
    key: Ident<'a>,
    value: V,
    after: Seq<(Ident<'a>, V)>,
)
    requires
        is_written(before, key, value, after),
    ensures
        key_texts(after) == if key_texts(before).contains(key@) {
            key_texts(before)
        } else {
            key_texts(before).push(key@)
        },
{
    let keys = key_texts(before);
    if exists|i: int|
        0 <= i < before.len() && #[trigger] before[i].0@ == key@ && after == before.update(
            i,
            (key, value),
        ) {
        let i = choose|i: int|
            0 <= i < before.len() && #[trigger] before[i].0@ == key@ && after == before.update(
                i,
                (key, value),
            );
        assert(keys[i] == key@);
        assert(key_texts(after) =~= keys);
    } else {
        if keys.contains(key@) {
            let j = choose|j: int| 0 <= j < keys.len() && keys[j] == key@;
            assert(before[j].0@ == key@);
        }
        assert(key_texts(after) =~= keys.push(key@));
    }
}

/// What a lookup by position says of the mapping: the entry found under a
/// key holds the mapping's value for it, and a key that no entry has is not
/// in the mapping.
pub proof fn lemma_found<'a, V, M>(
    entries: Seq<(Ident<'a>, V)>,
    hold: spec_fn(V) -> M,
    key: Seq<char>,
    at: Option<usize>,
)
    requires
        distinct_idents(entries),
        match at {
            Some(i) => i < entries.len() && entries[i as int].0@ == key,
            None => forall|j: int| 0 <= j < entries.len() ==> entries[j].0@ != key,
        },
    ensures
        match at {
            Some(i) => fold_pairs(keyed(entries, hold)).dom().contains(key) && fold_pairs(
                keyed(entries, hold),
            )[key] == hold(entries[i as int].1),
            None => !fold_pairs(keyed(entries, hold)).dom().contains(key),
        },
{
    let pairs = keyed(entries, hold);
    lemma_fold_keys(pairs, key);
    match at {
        Some(i) => {
            assert(pairs[i as int].0 == key);
            assert(is_last_of_key(pairs, i as int)) by {
                assert forall|j: int| i < j < pairs.len() implies pairs[j].0 != pairs[i as int].0 by {
                    assert(entries[i as int].0@ != entries[j].0@);
                }
            }
            lemma_fold_last_wins(pairs, i as int);
        },
        None => {
            if has_key(pairs, key) {
                let j = choose|j: int| 0 <= j < pairs.len() && #[trigger] pairs[j].0 == key;
                assert(entries[j].0@ != key);
            }
        },
    }
}

} // verus!
