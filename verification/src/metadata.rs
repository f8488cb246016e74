use vstd::prelude::*;
use vstd::std_specs::cmp::PartialEqSpecImpl;
use crate::assoc::{
    distinct_idents, find, first_seen, fold_pairs, key_texts, keyed, lemma_fold_equal,
    lemma_fold_len, lemma_found, lemma_keyed_distinct, lemma_written, lemma_written_keys, upsert,
};
use crate::ident::Ident;
use crate::value::{SingleModel, SingleValue};

verus! {

/// What the payload of an attribute holds; a bare marker has none.
pub open spec fn payload_model<'a>(payload: Option<SingleValue<'a>>) -> Option<SingleModel> {
    match payload {
        Some(atom) => Some(atom@),
        None => None,
    }
}

/// The key texts of a run of attributes, each with what its payload holds.
pub open spec fn meta_models<'a>(pairs: Seq<(Ident<'a>, Option<SingleValue<'a>>)>) -> Seq<
    (Seq<char>, Option<SingleModel>),
> {
    keyed(pairs, |payload: Option<SingleValue<'a>>| payload_model(payload))
}

/// The attributes attached to a declaration: under each key a payload, or
/// none where the attribute is a bare marker. No key twice. Two lists are
/// equal when they map the same keys to equal payloads, in whatever order.
#[derive(Debug)]
pub struct Metadata<'a>(pub(crate) Vec<(Ident<'a>, Option<SingleValue<'a>>)>);

impl<'a> View for Metadata<'a> {
    type V = Map<Seq<char>, Option<SingleModel>>;

    open(crate) spec fn view(&self) -> Map<Seq<char>, Option<SingleModel>> {
        fold_pairs(meta_models(self.0@))
    }
}

impl<'a> Metadata<'a> {
    #[verifier::type_invariant]
    spec fn keys_single(self) -> bool {
        distinct_idents(self.0@)
    }

    /// The texts of the keys, in the order in which the keys were first
    /// written.
    pub open(crate) spec fn keys(self) -> Seq<Seq<char>> {
        key_texts(self.0@)
    }

    /// The attributes that the pairs build when written in turn: of two
    /// pairs with one key, the later one stays.
    pub fn from_pairs(pairs: Vec<(Ident<'a>, Option<SingleValue<'a>>)>) -> (made: Metadata<'a>)
        ensures
            made@ == fold_pairs(meta_models(pairs@)),
            made.keys() == first_seen(key_texts(pairs@)),
    {
        let ghost all = pairs@;
        let mut entries: Vec<(Ident<'a>, Option<SingleValue<'a>>)> = Vec::new();
        for pair in it: pairs
            invariant
                it.seq() == all,
                distinct_idents(entries@),
                fold_pairs(meta_models(entries@)) == fold_pairs(
                    meta_models(all.take(it.index() as int)),
                ),
                key_texts(entries@) == first_seen(key_texts(all.take(it.index() as int))),
        {
            let ghost before = entries@;
            let ghost done = all.take(it.index() as int);
            let (key, payload) = pair;
            upsert(&mut entries, key, payload);
            proof {
                lemma_written(
                    before,
                    key,
                    payload,
                    entries@,
                    |payload: Option<SingleValue<'a>>| payload_model(payload),
                );
                lemma_written_keys(before, key, payload, entries@);
                assert(all.take(it.index() + 1) =~= done.push((key, payload)));
                assert(key_texts(done.push((key, payload))) =~= key_texts(done).push(key@));
                assert(key_texts(done).push(key@).drop_last() =~= key_texts(done));
                assert(meta_models(done.push((key, payload))) =~= meta_models(done).push(
                    (key@, payload_model(payload)),
                ));
                assert(meta_models(done).push((key@, payload_model(payload))).drop_last()
                    =~= meta_models(done));
            }
        }
        proof {
            assert(all.take(all.len() as int) =~= all);
        }
        Metadata(entries)
    }

    /// The payload under `key`, if the attribute is there: `Some(None)` says
    /// that it is there as a bare marker.
    pub fn get(&self, key: &str) -> (found: Option<Option<SingleValue<'a>>>)
        ensures
            match found {
                Some(payload) => self@.dom().contains(key@) && self@[key@] == payload_model(
                    payload,
                ),
                None => !self@.dom().contains(key@),
            },
    {
        let at = find(&self.0, key);
        proof {
            use_type_invariant(self);
            lemma_found(
                self.0@,
                |payload: Option<SingleValue<'a>>| payload_model(payload),
                key@,
                at,
            );
        }
        match at {
            Some(i) => Some(self.0[i].1),
            None => None,
        }
    }

    /// How many attributes there are.
    pub fn len(&self) -> (n: usize)
        ensures
            self@.dom().finite(),
            n == self@.dom().len(),
    {
        proof {
            use_type_invariant(self);
            lemma_keyed_distinct(
                self.0@,
                |payload: Option<SingleValue<'a>>| payload_model(payload),
            );
            lemma_fold_len(meta_models(self.0@));
        }
        self.0.len()
    }

    /// The keys with their payloads, each key once: in the order in which the
    /// keys were first written.
    pub fn entries(&self) -> (entries: &Vec<(Ident<'a>, Option<SingleValue<'a>>)>)
        ensures
            distinct_idents(entries@),
            fold_pairs(meta_models(entries@)) == self@,
            key_texts(entries@) == self.keys(),
    {
        proof {
            use_type_invariant(self);
        }
        &self.0
    }
}

impl<'a> Clone for Metadata<'a> {
    fn clone(&self) -> (copy: Metadata<'a>)
        ensures
            copy@ == self@,
            copy.keys() == self.keys(),
    {
        proof {
            use_type_invariant(self);
        }
        let mut entries: Vec<(Ident<'a>, Option<SingleValue<'a>>)> = Vec::new();
        let n: usize = self.0.len();
        let mut i: usize = 0;
        while i < n
            invariant
                i <= n,
                n == self.0@.len(),
                entries@ == self.0@.take(i as int),
            decreases n - i,
        {
            entries.push(self.0[i]);
            assert(self.0@.take(i + 1) =~= self.0@.take(i as int).push(self.0@[i as int]));
            i += 1;
        }
        assert(entries@ =~= self.0@);
        Metadata(entries)
    }
}

/// Whether two payloads hold the same.
pub fn same_payload<'a>(a: &Option<SingleValue<'a>>, b: &Option<SingleValue<'a>>) -> (same: bool)
    ensures
        same == (payload_model(*a) == payload_model(*b)),
{
    match (a, b) {
        (Some(x), Some(y)) => x.same(y),
        (None, None) => true,
        _ => false,
    }
}

impl<'a> PartialEq for Metadata<'a> {
    fn eq(&self, other: &Metadata<'a>) -> (same: bool) {
        let ghost p = meta_models(self.0@);
        let ghost q = meta_models(other.0@);
        proof {
            use_type_invariant(self);
            use_type_invariant(other);
            lemma_keyed_distinct(
                self.0@,
                |payload: Option<SingleValue<'a>>| payload_model(payload),
            );
            lemma_keyed_distinct(
                other.0@,
                |payload: Option<SingleValue<'a>>| payload_model(payload),
            );
            lemma_fold_len(p);
            lemma_fold_len(q);
        }
        let n: usize = self.0.len();
        if n != other.0.len() {
            return false;
        }
        let mut i: usize = 0;
        while i < n
            invariant
                i <= n,
                n == self.0@.len(),
                n == other.0@.len(),
                p == meta_models(self.0@),
                q == meta_models(other.0@),
                distinct_idents(self.0@),
                distinct_idents(other.0@),
                forall|k: int| 0 <= k < i ==> q.contains(#[trigger] p[k]),
            decreases n - i,
        {
            let at = find(&other.0, self.0[i].0.as_str());
            proof {
                lemma_found(
                    other.0@,
                    |payload: Option<SingleValue<'a>>| payload_model(payload),
                    self.0@[i as int].0@,
                    at,
                );
                lemma_found(
                    self.0@,
                    |payload: Option<SingleValue<'a>>| payload_model(payload),
                    self.0@[i as int].0@,
                    Some(i),
                );
            }
            match at {
                Some(j) => {
                    if !same_payload(&self.0[i].1, &other.0[j].1) {
                        return false;
                    }
                    assert(q[j as int] == p[i as int]);
                },
                None => {
                    return false;
                },
            }
            i += 1;
        }
        proof {
            lemma_fold_equal(p, q);
        }
        true
    }
}

impl<'a> PartialEqSpecImpl for Metadata<'a> {
    open spec fn obeys_eq_spec() -> bool {
        true
    }

    open(crate) spec fn eq_spec(&self, other: &Metadata<'a>) -> bool {
        self@ == other@
    }
}

} // verus!
