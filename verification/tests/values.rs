use butte::ident::Ident;
use butte::metadata::Metadata;
use butte::value::{Object, Scalar, SingleValue, Value};

fn id(name: &str) -> Ident<'_> {
    Ident::new(name).unwrap()
}

#[test]
fn test_single_value() {
    let val = SingleValue::from(1i64);
    assert_eq!(val, SingleValue::Scalar(Scalar::Integer(1)));

    let val = SingleValue::from(Scalar::from_float_bits(1.0f64.to_bits()));
    assert_eq!(val, SingleValue::Scalar(Scalar::Float(1.0f64.to_bits())));

    let val = SingleValue::from("a");
    assert_eq!(val, SingleValue::StringConstant("a"));
}

#[test]
fn test_value_macro_simple() {
    let result = Value::from(SingleValue::from("a"));
    let expected = Value::SingleValue(SingleValue::StringConstant("a"));
    assert_eq!(result, expected);

    let result = Value::from(SingleValue::from(1i64));
    let expected = Value::SingleValue(SingleValue::Scalar(Scalar::Integer(1)));
    assert_eq!(result, expected);
}

#[test]
fn test_value_macro_list() {
    let result = Value::list_of(vec![
        SingleValue::from("a"),
        SingleValue::from("b"),
        SingleValue::from(1i64),
    ]);
    let expected = Value::List(vec![
        Value::from(SingleValue::from("a")),
        Value::from(SingleValue::from("b")),
        Value::from(SingleValue::from(Scalar::from(1i64))),
    ]);
    assert_eq!(result, expected);
}

#[test]
fn test_value_macro_obj() {
    let result = Value::from(Object::from_pairs(vec![
        (id("a"), Value::from(SingleValue::from(1i64))),
        (id("b"), Value::from(SingleValue::from("c"))),
    ]));
    let expected = Value::object(vec![
        (id("a"), Value::SingleValue(SingleValue::Scalar(Scalar::Integer(1)))),
        (id("b"), Value::SingleValue(SingleValue::StringConstant("c"))),
    ]);
    assert_eq!(result, expected);
}

#[test]
fn list_from_values_keeps_order() {
    let items = vec![
        Value::from(SingleValue::from("a")),
        Value::from(SingleValue::from("b")),
        Value::from(SingleValue::from(1i64)),
    ];
    match Value::from(items) {
        Value::List(got) => {
            assert_eq!(got.len(), 3);
            assert_eq!(got[0], Value::SingleValue(SingleValue::StringConstant("a")));
            assert_eq!(got[1], Value::SingleValue(SingleValue::StringConstant("b")));
            assert_eq!(got[2], Value::SingleValue(SingleValue::Scalar(Scalar::Integer(1))));
        }
        other => panic!("not a list: {:?}", other),
    }
}

#[test]
fn empty_list_is_empty() {
    assert_eq!(Value::list_of(vec![]), Value::List(vec![]));
}

#[test]
fn object_maps_each_key_to_its_value() {
    let object = Object::from_pairs(vec![
        (id("a"), Value::from(SingleValue::from(1i64))),
        (id("b"), Value::from(SingleValue::from("c"))),
    ]);
    assert_eq!(object.len(), 2);
    assert_eq!(
        object.get("a"),
        Some(&Value::SingleValue(SingleValue::Scalar(Scalar::Integer(1))))
    );
    assert_eq!(
        object.get("b"),
        Some(&Value::SingleValue(SingleValue::StringConstant("c")))
    );
    assert_eq!(object.get("c"), None);
    assert_eq!(object.get(""), None);
}

#[test]
fn object_lookup_does_not_depend_on_order() {
    let one = Object::from_pairs(vec![
        (id("a"), Value::from(SingleValue::from(1i64))),
        (id("b"), Value::from(SingleValue::from("c"))),
    ]);
    let other = Object::from_pairs(vec![
        (id("b"), Value::from(SingleValue::from("c"))),
        (id("a"), Value::from(SingleValue::from(1i64))),
    ]);
    assert_eq!(one.len(), other.len());
    for key in ["a", "b", "z"] {
        assert_eq!(one.get(key), other.get(key));
    }
}

#[test]
fn object_duplicate_key_keeps_last_value() {
    let object = Object::from_pairs(vec![
        (id("a"), Value::from(SingleValue::from(1i64))),
        (id("b"), Value::from(SingleValue::from(2i64))),
        (id("a"), Value::from(SingleValue::from(3i64))),
    ]);
    assert_eq!(object.len(), 2);
    assert_eq!(
        object.get("a"),
        Some(&Value::SingleValue(SingleValue::Scalar(Scalar::Integer(3))))
    );
    assert_eq!(
        object.get("b"),
        Some(&Value::SingleValue(SingleValue::Scalar(Scalar::Integer(2))))
    );
    let keys: Vec<&str> = object.entries().iter().map(|e| e.0.as_str()).collect();
    assert_eq!(keys, vec!["a", "b"]);
}

#[test]
fn object_keys_compare_by_text() {
    let owned = String::from("key");
    let object = Object::from_pairs(vec![(id(&owned), Value::from(SingleValue::from(7i64)))]);
    assert_eq!(
        object.get("key"),
        Some(&Value::SingleValue(SingleValue::Scalar(Scalar::Integer(7))))
    );
    assert_eq!(object.get("ke"), None);
    assert_eq!(object.get("keys"), None);
    assert_eq!(object.get("kez"), None);
}

#[test]
fn empty_object() {
    let object = Object::from_pairs(vec![]);
    assert_eq!(object.len(), 0);
    assert_eq!(object.get("a"), None);
}

#[test]
fn nested_values() {
    let inner = Value::object(vec![(id("x"), Value::list_of(vec![SingleValue::from(1i64)]))]);
    let outer = Object::from_pairs(vec![(id("inner"), inner)]);
    match outer.get("inner") {
        Some(Value::Object(record)) => {
            assert_eq!(
                record.get("x"),
                Some(&Value::List(vec![Value::SingleValue(SingleValue::Scalar(
                    Scalar::Integer(1)
                ))]))
            );
        }
        other => panic!("not a record: {:?}", other),
    }
}

#[test]
fn same_literal_by_two_ways_is_equal() {
    let by_from = Value::from(SingleValue::from(Scalar::from(5i64)));
    let by_short = Value::from(SingleValue::from(5i64));
    assert_eq!(by_from, by_short);
    let twice = Value::list_of(vec![SingleValue::from("a")]);
    assert_eq!(twice, Value::list_of(vec![SingleValue::from("a")]));
}

#[test]
fn clone_holds_the_same() {
    let value = Value::object(vec![
        (id("a"), Value::list_of(vec![SingleValue::from("x"), SingleValue::from(2i64)])),
        (id("b"), Value::from(SingleValue::from(Scalar::from_float_bits(2.5f64.to_bits())))),
    ]);
    assert_eq!(value.clone(), value);
    assert_eq!(value.duplicate(), value);
}

#[test]
fn float_scalar_keeps_its_bits() {
    let scalar = Scalar::from_float_bits(1.5f64.to_bits());
    match scalar {
        Scalar::Float(bits) => assert_eq!(f64::from_bits(bits), 1.5),
        Scalar::Integer(_) => panic!("not a float"),
    }
    assert_ne!(scalar, Scalar::from(1i64));
}

#[test]
fn metadata_markers_and_payloads() {
    let meta = Metadata::from_pairs(vec![
        (id("deprecated"), None),
        (id("id"), Some(SingleValue::from(4i64))),
        (id("id"), Some(SingleValue::from(5i64))),
        (id("name"), Some(SingleValue::from("n"))),
    ]);
    assert_eq!(meta.len(), 3);
    assert_eq!(meta.get("deprecated"), Some(None));
    assert_eq!(meta.get("id"), Some(Some(SingleValue::Scalar(Scalar::Integer(5)))));
    assert_eq!(meta.get("name"), Some(Some(SingleValue::StringConstant("n"))));
    assert_eq!(meta.get("missing"), None);
    assert_eq!(meta.clone(), meta);
    let keys: Vec<&str> = meta.entries().iter().map(|e| e.0.as_str()).collect();
    assert_eq!(keys, vec!["deprecated", "id", "name"]);
}

#[test]
fn object_equality_ignores_order() {
    let one = Value::object(vec![
        (id("a"), Value::from(SingleValue::from(1i64))),
        (id("b"), Value::from(SingleValue::from("c"))),
    ]);
    let other = Value::object(vec![
        (id("b"), Value::from(SingleValue::from("c"))),
        (id("a"), Value::from(SingleValue::from(1i64))),
    ]);
    assert_eq!(one, other);
    assert!(one.same(&other));
}

#[test]
fn object_equality_sees_differences() {
    let base = Object::from_pairs(vec![
        (id("a"), Value::from(SingleValue::from(1i64))),
        (id("b"), Value::from(SingleValue::from("c"))),
    ]);
    let other_value = Object::from_pairs(vec![
        (id("a"), Value::from(SingleValue::from(2i64))),
        (id("b"), Value::from(SingleValue::from("c"))),
    ]);
    let other_key = Object::from_pairs(vec![
        (id("a"), Value::from(SingleValue::from(1i64))),
        (id("z"), Value::from(SingleValue::from("c"))),
    ]);
    let fewer = Object::from_pairs(vec![(id("a"), Value::from(SingleValue::from(1i64)))]);
    assert_ne!(base, other_value);
    assert_ne!(base, other_key);
    assert_ne!(base, fewer);
    assert_ne!(fewer, base);
    assert_eq!(base, base.clone());
}

#[test]
fn duplicate_keys_compare_by_what_stays() {
    let with_duplicate = Object::from_pairs(vec![
        (id("a"), Value::from(SingleValue::from(1i64))),
        (id("a"), Value::from(SingleValue::from(2i64))),
    ]);
    let plain = Object::from_pairs(vec![(id("a"), Value::from(SingleValue::from(2i64)))]);
    assert_eq!(with_duplicate, plain);
}

#[test]
fn value_equality_by_kind_and_content() {
    let atom = Value::from(SingleValue::from(1i64));
    let text = Value::from(SingleValue::from("1"));
    let list = Value::list_of(vec![SingleValue::from(1i64)]);
    let longer = Value::list_of(vec![SingleValue::from(1i64), SingleValue::from(1i64)]);
    let swapped = Value::list_of(vec![SingleValue::from("x"), SingleValue::from(1i64)]);
    let order = Value::list_of(vec![SingleValue::from(1i64), SingleValue::from("x")]);
    let record = Value::object(vec![]);
    assert_ne!(atom, text);
    assert_ne!(atom, list);
    assert_ne!(list, longer);
    assert_ne!(swapped, order);
    assert_ne!(record, Value::List(vec![]));
    assert_eq!(record, Value::object(vec![]));
    assert!(!atom.same(&text));
    assert!(SingleValue::from("a").same(&SingleValue::from("a")));
    assert!(!SingleValue::from("a").same(&SingleValue::from(1i64)));
    assert!(!SingleValue::from(Scalar::from_float_bits(1.0f64.to_bits()))
        .same(&SingleValue::from(1i64)));
}

#[test]
fn nested_equality_ignores_order_at_each_level() {
    let one = Value::List(vec![Value::object(vec![
        (id("x"), Value::object(vec![
            (id("p"), Value::from(SingleValue::from(1i64))),
            (id("q"), Value::from(SingleValue::from(2i64))),
        ])),
        (id("y"), Value::from(SingleValue::from("s"))),
    ])]);
    let other = Value::List(vec![Value::object(vec![
        (id("y"), Value::from(SingleValue::from("s"))),
        (id("x"), Value::object(vec![
            (id("q"), Value::from(SingleValue::from(2i64))),
            (id("p"), Value::from(SingleValue::from(1i64))),
        ])),
    ])]);
    assert_eq!(one, other);
}

#[test]
fn metadata_equality_ignores_order() {
    let one = Metadata::from_pairs(vec![
        (id("a"), None),
        (id("b"), Some(SingleValue::from(1i64))),
    ]);
    let other = Metadata::from_pairs(vec![
        (id("b"), Some(SingleValue::from(1i64))),
        (id("a"), None),
    ]);
    let marker_differs = Metadata::from_pairs(vec![
        (id("a"), Some(SingleValue::from(1i64))),
        (id("b"), Some(SingleValue::from(1i64))),
    ]);
    let fewer = Metadata::from_pairs(vec![(id("a"), None)]);
    assert_eq!(one, other);
    assert_ne!(one, marker_differs);
    assert_ne!(one, fewer);
    assert_ne!(fewer, one);
}
