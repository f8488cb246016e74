use vstd::prelude::*;
use vstd::std_specs::convert::FromSpec;
use crate::assoc::{
    distinct_idents, fold_pairs, is_last_of_key, keyed, lemma_fold_any_order, lemma_fold_last_wins,
    lemma_keyed_distinct,
};
use crate::ident::Ident;
use crate::value::{
    atom_list_model, lemma_pair_models_keyed, list_models, pair_models, Object, Scalar, SingleValue, Value,
    ValueModel,
};

verus! {

/// A list literal holds, place by place and in order, what its items hold.
pub proof fn law_list_pointwise<'a>(items: Vec<Value<'a>>)
    ensures
        Value::from_spec(items)@ == ValueModel::List(list_models(items@)),
        list_models(items@).len() == items@.len(),
        forall|i: int| 0 <= i < items@.len() ==> list_models(items@)[i] == items@[i]@,
{
}

/// A list built from atoms holds at each place what the literal built from
/// that atom alone holds.
pub proof fn law_list_of_atoms<'a>(atoms: Seq<SingleValue<'a>>)
    ensures
        atom_list_model(atoms) matches ValueModel::List(items) && items.len() == atoms.len()
            && forall|i: int|
            0 <= i < atoms.len() ==> #[trigger] items[i] == Value::from_spec(atoms[i])@,
{
}

/// In a record built from pairs, each supplied key maps to what the value of
/// the last pair with that key holds.
pub proof fn law_object_key_to_value<'a>(pairs: Seq<(Ident<'a>, Value<'a>)>, i: int)
    requires
        0 <= i < pairs.len(),
        forall|j: int| i < j < pairs.len() ==> pairs[j].0@ != pairs[i].0@,
    ensures
        fold_pairs(pair_models(pairs)).dom().contains(pairs[i].0@),
        fold_pairs(pair_models(pairs))[pairs[i].0@] == pairs[i].1@,
{
    let models = pair_models(pairs);
    assert(is_last_of_key(models, i)) by {
        assert forall|j: int| i < j < models.len() implies models[j].0 != models[i].0 by {
            assert(pairs[j].0@ != pairs[i].0@);
        }
    }
    lemma_fold_last_wins(models, i);
}

/// Where no key is supplied twice, a record does not depend on the order of
/// its pairs: two runs that hold the same keys with values that hold the
/// same build the same record.
pub proof fn law_object_any_order<'a>(
    p: Seq<(Ident<'a>, Value<'a>)>,
    q: Seq<(Ident<'a>, Value<'a>)>,
)
    requires
        distinct_idents(p),
        distinct_idents(q),
        forall|i: int| 0 <= i < p.len() ==> pair_models(q).contains(#[trigger] pair_models(p)[i]),
        forall|j: int| 0 <= j < q.len() ==> pair_models(p).contains(#[trigger] pair_models(q)[j]),
    ensures
        fold_pairs(pair_models(p)) == fold_pairs(pair_models(q)),
{
    lemma_pair_models_keyed(p);
    lemma_pair_models_keyed(q);
    lemma_keyed_distinct(p, |v: Value<'a>| v@);
    lemma_keyed_distinct(q, |v: Value<'a>| v@);
    lemma_fold_any_order(pair_models(p), pair_models(q));
}

/// What is supplied decides what is built: pairs with the same key texts
/// whose values hold the same build the same record, and items that hold the
/// same build the same list.
pub proof fn law_same_input_same_value<'a>(
    p: Seq<(Ident<'a>, Value<'a>)>,
    q: Seq<(Ident<'a>, Value<'a>)>,
    xs: Seq<Value<'a>>,
    ys: Seq<Value<'a>>,
)
    requires
        p.len() == q.len(),
        forall|i: int| 0 <= i < p.len() ==> p[i].0@ == q[i].0@ && p[i].1@ == q[i].1@,
        xs.len() == ys.len(),
        forall|i: int| 0 <= i < xs.len() ==> xs[i]@ == ys[i]@,
    ensures
        fold_pairs(pair_models(p)) == fold_pairs(pair_models(q)),
        list_models(xs) == list_models(ys),
{
    assert(pair_models(p) =~= pair_models(q));
    assert(list_models(xs) =~= list_models(ys));
}

/// The ways to write one literal agree: an integer atom made at once or by
/// way of a scalar, and a record literal made at once or by way of a record.
pub proof fn law_entry_points_agree<'a>(n: i64, record: Object<'a>)
    ensures
        <SingleValue<'a> as FromSpec<i64>>::from_spec(n) == <SingleValue<'a> as FromSpec<
            Scalar,
        >>::from_spec(Scalar::from_spec(n)),
        Value::from_spec(record)@ == ValueModel::Object(record@),
{
}

} // verus!
