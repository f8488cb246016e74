use vstd::prelude::*;
use vstd::std_specs::cmp::PartialEqSpecImpl;
use vstd::std_specs::convert::FromSpecImpl;
use crate::text::text_eq;
use crate::ident::Ident;
use crate::assoc::{
    distinct_idents, find, first_seen, fold_pairs, key_texts, keyed, lemma_fold_equal,
    lemma_fold_len, lemma_found, lemma_keyed_distinct, lemma_written, lemma_written_keys, upsert,
};

verus! {

/// A numeric constant. An integer is held as written; a floating constant is
/// held by the 64 bits of its IEEE 754 double.
#[derive(Debug, Clone, Copy, PartialEq, Eq, Hash, Structural)]
pub enum Scalar {
    Integer(i64),
    Float(u64),
}

impl Scalar {
    /// The floating constant whose double has the bits `bits`.
    pub fn from_float_bits(bits: u64) -> (made: Scalar)
        ensures
            made == Scalar::Float(bits),
    {
        Scalar::Float(bits)
    }
}

impl From<i64> for Scalar {
    fn from(v: i64) -> (made: Scalar) {
        Scalar::Integer(v)
    }
}

impl FromSpecImpl<i64> for Scalar {
    open spec fn obeys_from_spec() -> bool {
        true
    }

    open spec fn from_spec(v: i64) -> Scalar {
        Scalar::Integer(v)
    }
}

/// What an atomic literal holds.
pub enum SingleModel {
    Scalar(Scalar),
    Text(Seq<char>),
}

/// An atomic literal: a numeric constant or a string constant.
#[derive(Debug, Clone, Copy, PartialEq, Eq, Hash)]
pub enum SingleValue<'a> {
    Scalar(Scalar),
    StringConstant(&'a str),
}

impl<'a> View for SingleValue<'a> {
    type V = SingleModel;

    open spec fn view(&self) -> SingleModel {
        match *self {
            SingleValue::Scalar(x) => SingleModel::Scalar(x),
            SingleValue::StringConstant(s) => SingleModel::Text(s@),
        }
    }
}

impl<'a> SingleValue<'a> {
    /// Whether this atom and `other` hold the same.
    pub fn same(&self, other: &SingleValue<'a>) -> (same: bool)
        ensures
            same == (self@ == other@),
    {
        match (self, other) {
            (SingleValue::Scalar(x), SingleValue::Scalar(y)) => *x == *y,
            (SingleValue::StringConstant(x), SingleValue::StringConstant(y)) => text_eq(x, y),
            _ => false,
        }
    }
}

impl<'a> From<Scalar> for SingleValue<'a> {
    fn from(v: Scalar) -> (made: SingleValue<'a>) {
        SingleValue::Scalar(v)
    }
}

impl<'a> FromSpecImpl<Scalar> for SingleValue<'a> {
    open spec fn obeys_from_spec() -> bool {
        true
    }

    open spec fn from_spec(v: Scalar) -> SingleValue<'a> {
        SingleValue::Scalar(v)
    }
}

impl<'a> From<i64> for SingleValue<'a> {
    fn from(v: i64) -> (made: SingleValue<'a>) {
        SingleValue::Scalar(Scalar::Integer(v))
    }
}

impl<'a> FromSpecImpl<i64> for SingleValue<'a> {
    open spec fn obeys_from_spec() -> bool {
        true
    }

    open spec fn from_spec(v: i64) -> SingleValue<'a> {
        SingleValue::Scalar(Scalar::Integer(v))
    }
}

impl<'a> From<&'a str> for SingleValue<'a> {
    fn from(v: &'a str) -> (made: SingleValue<'a>) {
        SingleValue::StringConstant(v)
    }
}

impl<'a> FromSpecImpl<&'a str> for SingleValue<'a> {
    open spec fn obeys_from_spec() -> bool {
        true
    }

    open spec fn from_spec(v: &'a str) -> SingleValue<'a> {
        SingleValue::StringConstant(v)
    }
}

/// What a literal holds: an atom, a mapping from key texts to what the
/// values under them hold, or a run of what its items hold.
pub enum ValueModel {
    Single(SingleModel),
    Object(Map<Seq<char>, ValueModel>),
    List(Seq<ValueModel>),
}

/// Any literal: an atom, a record, or a list of literals. Two literals are
/// equal when they hold the same.
#[derive(Debug)]
pub enum Value<'a> {
    SingleValue(SingleValue<'a>),
    Object(Object<'a>),
    List(Vec<Value<'a>>),
}

/// A literal record: values under keys, no key twice. Two records are equal
/// when they map the same keys to equal values, in whatever order.
#[derive(Debug)]
pub struct Object<'a>(pub(crate) Vec<(Ident<'a>, Value<'a>)>);

impl<'a> Value<'a> {
    /// What this literal holds.
    pub open(crate) spec fn model(self) -> ValueModel
        decreases self,
    {
        match self {
            Value::SingleValue(s) => ValueModel::Single(s@),
            Value::Object(o) => ValueModel::Object(fold_pairs(pair_models(o.0@))),
            Value::List(items) => ValueModel::List(list_models(items@)),
        }
    }
}

/// What the literals of a run hold, one for one.
pub open(crate) spec fn list_models<'a>(items: Seq<Value<'a>>) -> Seq<ValueModel>
    decreases items,
{
    Seq::new(
        items.len(),
        |i: int|
            if 0 <= i < items.len() {
                items[i].model()
            } else {
                arbitrary()
            },
    )
}

/// The key texts of a run of keyed literals, each with what its literal holds.
pub open(crate) spec fn pair_models<'a>(pairs: Seq<(Ident<'a>, Value<'a>)>) -> Seq<
    (Seq<char>, ValueModel),
>
    decreases pairs,
{
    Seq::new(
        pairs.len(),
        |i: int|
            if 0 <= i < pairs.len() {
                (pairs[i].0@, pairs[i].1.model())
            } else {
                arbitrary()
            },
    )
}

impl<'a> View for Value<'a> {
    type V = ValueModel;

    open(crate) spec fn view(&self) -> ValueModel {
        self.model()
    }
}

impl<'a> View for Object<'a> {
    type V = Map<Seq<char>, ValueModel>;

    open(crate) spec fn view(&self) -> Map<Seq<char>, ValueModel> {
        fold_pairs(pair_models(self.0@))
    }
}

impl<'a> Object<'a> {
    #[verifier::type_invariant]
    spec fn keys_single(self) -> bool {
        distinct_idents(self.0@)
    }

    /// The texts of the keys, in the order in which the keys were first
    /// written.
    pub open(crate) spec fn keys(self) -> Seq<Seq<char>> {
        key_texts(self.0@)
    }

    /// The record that the pairs build when written in turn: of two pairs
    /// with one key, the later one stays.
    pub fn from_pairs(pairs: Vec<(Ident<'a>, Value<'a>)>) -> (made: Object<'a>)
        ensures
            made@ == fold_pairs(pair_models(pairs@)),
            made.keys() == first_seen(key_texts(pairs@)),
    {
        let ghost all = pairs@;
        let mut entries: Vec<(Ident<'a>, Value<'a>)> = Vec::new();
        for pair in it: pairs
            invariant
                it.seq() == all,
                distinct_idents(entries@),
                fold_pairs(pair_models(entries@)) == fold_pairs(
                    pair_models(all.take(it.index() as int)),
                ),
                key_texts(entries@) == first_seen(key_texts(all.take(it.index() as int))),
        {
            let ghost before = entries@;
            let ghost done = all.take(it.index() as int);
            let (key, value) = pair;
            upsert(&mut entries, key, value);
            proof {
                lemma_pair_models_keyed(before);
                lemma_pair_models_keyed(entries@);
                lemma_written(before, key, value, entries@, |v: Value<'a>| v@);
                lemma_written_keys(before, key, value, entries@);
                assert(all.take(it.index() + 1) =~= done.push((key, value)));
                assert(key_texts(done.push((key, value))) =~= key_texts(done).push(key@));
                assert(key_texts(done).push(key@).drop_last() =~= key_texts(done));
                assert(pair_models(done.push((key, value))) =~= pair_models(done).push(
                    (key@, value@),
                ));
                assert(pair_models(done).push((key@, value@)).drop_last() =~= pair_models(done));
            }
        }
        proof {
            assert(all.take(all.len() as int) =~= all);
        }
        Object(entries)
    }

    /// The value under `key`, if the record has that key.
    pub fn get(&self, key: &str) -> (found: Option<&Value<'a>>)
        ensures
            match found {
                Some(value) => self@.dom().contains(key@) && self@[key@] == value@,
                None => !self@.dom().contains(key@),
            },
    {
        let at = find(&self.0, key);
        proof {
            use_type_invariant(self);
            lemma_pair_models_keyed(self.0@);
            lemma_found(self.0@, |v: Value<'a>| v@, key@, at);
        }
        match at {
            Some(i) => Some(&self.0[i].1),
            None => None,
        }
    }

    /// How many keys the record has.
    pub fn len(&self) -> (n: usize)
        ensures
            self@.dom().finite(),
            n == self@.dom().len(),
    {
        proof {
            use_type_invariant(self);
            let pairs = pair_models(self.0@);
            lemma_pair_models_keyed(self.0@);
            lemma_keyed_distinct(self.0@, |v: Value<'a>| v@);
            lemma_fold_len(pairs);
        }
        self.0.len()
    }

    /// The keys with their values, each key once: in the order in which the
    /// keys were first written.
    pub fn entries(&self) -> (entries: &Vec<(Ident<'a>, Value<'a>)>)
        ensures
            distinct_idents(entries@),
            fold_pairs(pair_models(entries@)) == self@,
            key_texts(entries@) == self.keys(),
    {
        proof {
            use_type_invariant(self);
        }
        &self.0
    }
}

/// The pairs of keyed literals are their entries, each value taken by what
/// it holds.
pub proof fn lemma_pair_models_keyed<'a>(pairs: Seq<(Ident<'a>, Value<'a>)>)
    ensures
        pair_models(pairs) == keyed(pairs, |v: Value<'a>| v@),
{
    assert(pair_models(pairs) =~= keyed(pairs, |v: Value<'a>| v@));
}

/// What the list of the given atoms holds: at each place what the atom there
/// holds.
pub open spec fn atom_list_model<'a>(atoms: Seq<SingleValue<'a>>) -> ValueModel {
    ValueModel::List(Seq::new(atoms.len(), |i: int| ValueModel::Single(atoms[i]@)))
}

impl<'a> Value<'a> {
    /// The list of the given atoms, in their order.
    pub fn list_of(atoms: Vec<SingleValue<'a>>) -> (made: Value<'a>)
        ensures
            made@ == atom_list_model(atoms@),
    {
        let mut items: Vec<Value<'a>> = Vec::new();
        let n: usize = atoms.len();
        let mut i: usize = 0;
        while i < n
            invariant
                i <= n,
                n == atoms@.len(),
                items@.len() == i,
                forall|k: int| 0 <= k < i ==> items@[k] == Value::SingleValue(atoms@[k]),
            decreases n - i,
        {
            items.push(Value::SingleValue(atoms[i]));
            i += 1;
        }
        assert(list_models(items@) =~= Seq::new(
            atoms@.len(),
            |i: int| ValueModel::Single(atoms@[i]@),
        ));
        Value::List(items)
    }

    /// The record that the pairs build when written in turn, as a literal.
    pub fn object(pairs: Vec<(Ident<'a>, Value<'a>)>) -> (made: Value<'a>)
        ensures
            made@ == ValueModel::Object(fold_pairs(pair_models(pairs@))),
    {
        Value::Object(Object::from_pairs(pairs))
    }

    /// A literal that holds what this one holds.
    pub fn duplicate(&self) -> (copy: Value<'a>)
        ensures
            copy@ == self@,
        decreases self,
    {
        match self {
            Value::SingleValue(atom) => Value::SingleValue(*atom),
            Value::Object(record) => {
                proof {
                    use_type_invariant(record);
                }
                Value::Object(Object(duplicate_entries(&record.0)))
            },
            Value::List(items) => Value::List(duplicate_items(items)),
        }
    }
}

/// Literals that hold what the given ones hold, one for one.
fn duplicate_items<'a>(items: &Vec<Value<'a>>) -> (copies: Vec<Value<'a>>)
    ensures
        list_models(copies@) == list_models(items@),
    decreases items,
{
    let mut copies: Vec<Value<'a>> = Vec::new();
    let n: usize = items.len();
    let mut i: usize = 0;
    while i < n
        invariant
            i <= n,
            n == items@.len(),
            copies@.len() == i,
            forall|k: int| 0 <= k < i ==> copies@[k]@ == items@[k]@,
        decreases n - i,
    {
        copies.push(items[i].duplicate());
        i += 1;
    }
    assert(list_models(copies@) =~= list_models(items@));
    copies
}

/// Entries with the same keys that hold what the given ones hold.
fn duplicate_entries<'a>(
    entries: &Vec<(Ident<'a>, Value<'a>)>,
) -> (copies: Vec<(Ident<'a>, Value<'a>)>)
    ensures
        copies@.len() == entries@.len(),
        forall|k: int| 0 <= k < entries@.len() ==> copies@[k].0 == entries@[k].0,
        pair_models(copies@) == pair_models(entries@),
    decreases entries,
{
    let mut copies: Vec<(Ident<'a>, Value<'a>)> = Vec::new();
    let n: usize = entries.len();
    let mut i: usize = 0;
    while i < n
        invariant
            i <= n,
            n == entries@.len(),
            copies@.len() == i,
            forall|k: int| 0 <= k < i ==> copies@[k].0 == entries@[k].0,
            forall|k: int| 0 <= k < i ==> copies@[k].1@ == entries@[k].1@,
        decreases n - i,
    {
        copies.push((entries[i].0, entries[i].1.duplicate()));
        i += 1;
    }
    assert(pair_models(copies@) =~= pair_models(entries@));
    copies
}

impl<'a> Clone for Value<'a> {
    fn clone(&self) -> (copy: Value<'a>)
        ensures
            copy@ == self@,
    {
        self.duplicate()
    }
}

impl<'a> Clone for Object<'a> {
    fn clone(&self) -> (copy: Object<'a>)
        ensures
            copy@ == self@,
            copy.keys() == self.keys(),
    {
        proof {
            use_type_invariant(self);
        }
        let entries = duplicate_entries(&self.0);
        assert(key_texts(entries@) =~= key_texts(self.0@));
        Object(entries)
    }
}

impl<'a> From<SingleValue<'a>> for Value<'a> {
    fn from(v: SingleValue<'a>) -> (made: Value<'a>) {
        Value::SingleValue(v)
    }
}

impl<'a> FromSpecImpl<SingleValue<'a>> for Value<'a> {
    open spec fn obeys_from_spec() -> bool {
        true
    }

    open spec fn from_spec(v: SingleValue<'a>) -> Value<'a> {
        Value::SingleValue(v)
    }
}

impl<'a> From<Vec<Value<'a>>> for Value<'a> {
    fn from(v: Vec<Value<'a>>) -> (made: Value<'a>) {
        Value::List(v)
    }
}

impl<'a> FromSpecImpl<Vec<Value<'a>>> for Value<'a> {
    open spec fn obeys_from_spec() -> bool {
        true
    }

    open spec fn from_spec(v: Vec<Value<'a>>) -> Value<'a> {
        Value::List(v)
    }
}

impl<'a> From<Object<'a>> for Value<'a> {
    fn from(v: Object<'a>) -> (made: Value<'a>) {
        Value::Object(v)
    }
}

impl<'a> FromSpecImpl<Object<'a>> for Value<'a> {
    open spec fn obeys_from_spec() -> bool {
        true
    }

    open spec fn from_spec(v: Object<'a>) -> Value<'a> {
        Value::Object(v)
    }
}

impl<'a> Value<'a> {
    /// Whether this literal and `other` hold the same.
    pub fn same(&self, other: &Value<'a>) -> (same: bool)
        ensures
            same == (self@ == other@),
        decreases self,
    {
        match (self, other) {
            (Value::SingleValue(x), Value::SingleValue(y)) => x.same(y),
            (Value::Object(x), Value::Object(y)) => {
                proof {
                    use_type_invariant(x);
                    use_type_invariant(y);
                }
                same_entries(&x.0, &y.0)
            },
            (Value::List(x), Value::List(y)) => same_items(x, y),
            _ => false,
        }
    }
}

/// Whether two runs of literals hold the same, place by place.
fn same_items<'a>(a: &Vec<Value<'a>>, b: &Vec<Value<'a>>) -> (same: bool)
    ensures
        same == (list_models(a@) == list_models(b@)),
    decreases a,
{
    let n: usize = a.len();
    if n != b.len() {
        assert(list_models(a@).len() != list_models(b@).len());
        return false;
    }
    let mut i: usize = 0;
    while i < n
        invariant
            i <= n,
            n == a@.len(),
            n == b@.len(),
            forall|k: int| 0 <= k < i ==> a@[k]@ == b@[k]@,
        decreases n - i,
    {
        if !a[i].same(&b[i]) {
            assert(list_models(a@)[i as int] != list_models(b@)[i as int]);
            return false;
        }
        i += 1;
    }
    assert(list_models(a@) =~= list_models(b@));
    true
}

/// Whether two runs of entries, each with single keys, build the same record.
fn same_entries<'a>(
    a: &Vec<(Ident<'a>, Value<'a>)>,
    b: &Vec<(Ident<'a>, Value<'a>)>,
) -> (same: bool)
    requires
        distinct_idents(a@),
        distinct_idents(b@),
    ensures
        same == (fold_pairs(pair_models(a@)) == fold_pairs(pair_models(b@))),
    decreases a,
{
    let ghost p = pair_models(a@);
    let ghost q = pair_models(b@);
    proof {
        lemma_pair_models_keyed(a@);
        lemma_pair_models_keyed(b@);
        lemma_keyed_distinct(a@, |v: Value<'a>| v@);
        lemma_keyed_distinct(b@, |v: Value<'a>| v@);
        lemma_fold_len(p);
        lemma_fold_len(q);
    }
    let n: usize = a.len();
    if n != b.len() {
        return false;
    }
    let mut i: usize = 0;
    while i < n
        invariant
            i <= n,
            n == a@.len(),
            n == b@.len(),
            p == pair_models(a@),
            q == pair_models(b@),
            p == keyed(a@, |v: Value<'a>| v@),
            q == keyed(b@, |v: Value<'a>| v@),
            distinct_idents(a@),
            distinct_idents(b@),
            forall|k: int| 0 <= k < i ==> q.contains(#[trigger] p[k]),
        decreases n - i,
    {
        let at = find(b, a[i].0.as_str());
        proof {
            lemma_found(b@, |v: Value<'a>| v@, a@[i as int].0@, at);
            lemma_found(a@, |v: Value<'a>| v@, a@[i as int].0@, Some(i));
        }
        match at {
            Some(j) => {
                if !a[i].1.same(&b[j].1) {
                    return false;
                }
                assert(q[j as int] == p[i as int]);
            },
            None => {
                return false;
            },
        }
        i += 1;
    }
    proof {
        lemma_fold_equal(p, q);
    }
    true
}

impl<'a> PartialEq for Value<'a> {
    fn eq(&self, other: &Value<'a>) -> (same: bool) {
        self.same(other)
    }
}

impl<'a> PartialEqSpecImpl for Value<'a> {
    open spec fn obeys_eq_spec() -> bool {
        true
    }

    open(crate) spec fn eq_spec(&self, other: &Value<'a>) -> bool {
        self@ == other@
    }
}

impl<'a> PartialEq for Object<'a> {
    fn eq(&self, other: &Object<'a>) -> (same: bool) {
        proof {
            use_type_invariant(self);
            use_type_invariant(other);
        }
        same_entries(&self.0, &other.0)
    }
}

impl<'a> PartialEqSpecImpl for Object<'a> {
    open spec fn obeys_eq_spec() -> bool {
        true
    }

    open(crate) spec fn eq_spec(&self, other: &Object<'a>) -> bool {
        self@ == other@
    }
}

} // verus!
