use butte::compose::{
    array_field, enum_, enum_item, field, field_with_default, meta, method, rpc, union,
};
use butte::enums::{Enum, EnumKind, EnumVal};
use butte::error::BuildError;
use butte::field::Field;
use butte::file::{FileExtension, FileIdentifier, Include};
use butte::ident::{Attribute, Ident, Namespace, Root};
use butte::metadata::Metadata;
use butte::product::{struct_, table, ProductKind, ProductType};
use butte::rpc::{Rpc, RpcMethod};
use butte::schema::{Element, Schema};
use butte::ty::Type;
use butte::value::{Object, Scalar, SingleValue, Value};

fn id(name: &str) -> Ident<'_> {
    Ident::new(name).unwrap()
}

#[test]
fn field_with_base_type_and_default() {
    let f = field_with_default("hp", Type::Int, Scalar::from(100i64)).unwrap();
    assert_eq!(f.name().as_str(), "hp");
    assert_eq!(f.ty(), &Type::Int);
    assert_eq!(f.scalar(), Some(Scalar::Integer(100)));
    assert_eq!(f.metadata(), None);
    assert_eq!(f, Field::new(id("hp"), Type::Int).with_scalar(Scalar::Integer(100)));
}

#[test]
fn field_with_float_default() {
    let f = field_with_default("speed", Type::Float, Scalar::from_float_bits(1.5f64.to_bits()))
        .unwrap();
    assert_eq!(f.ty(), &Type::Float);
    assert_eq!(f.scalar(), Some(Scalar::Float(1.5f64.to_bits())));
}

#[test]
fn field_without_default_has_none() {
    let f = field("name", Type::String).unwrap();
    assert_eq!(f.name().as_str(), "name");
    assert_eq!(f.ty(), &Type::String);
    assert_eq!(f.scalar(), None);
    assert_eq!(f.metadata(), None);
    assert_eq!(f, Field::new(id("name"), Type::String));
}

#[test]
fn field_as_array_of_base_type() {
    let f = array_field("inventory", Type::UByte).unwrap();
    assert_eq!(f.name().as_str(), "inventory");
    assert_eq!(f.ty(), &Type::Array(Box::new(Type::UByte)));
    assert_eq!(f.scalar(), None);
    assert_eq!(f.metadata(), None);
    assert_eq!(Type::array(Type::UByte), Type::Array(Box::new(Type::UByte)));
}

#[test]
fn field_default_is_not_checked_against_the_type() {
    let f = field_with_default("friends", Type::array(Type::String), Scalar::from(1i64)).unwrap();
    assert_eq!(f.scalar(), Some(Scalar::Integer(1)));
    let f = Field::new(id("pos"), Type::named(id("Vec3"))).with_scalar(Scalar::Integer(0));
    assert_eq!(f.ty(), &Type::Ident(id("Vec3")));
    assert_eq!(f.scalar(), Some(Scalar::Integer(0)));
}

#[test]
fn field_with_empty_name_is_refused() {
    assert_eq!(field("", Type::Int), Err(BuildError::EmptyIdent));
    assert_eq!(
        field_with_default("", Type::Int, Scalar::Integer(1)),
        Err(BuildError::EmptyIdent)
    );
    assert_eq!(array_field("", Type::Int), Err(BuildError::EmptyIdent));
}

#[test]
fn field_with_metadata_keeps_the_rest() {
    let attrs = Metadata::from_pairs(vec![meta("deprecated", None).unwrap()]);
    let f = field_with_default("hp", Type::Short, Scalar::Integer(3))
        .unwrap()
        .with_metadata(attrs.clone());
    assert_eq!(f.name().as_str(), "hp");
    assert_eq!(f.ty(), &Type::Short);
    assert_eq!(f.scalar(), Some(Scalar::Integer(3)));
    assert_eq!(f.metadata(), Some(&attrs));
    assert_eq!(f.clone(), f);
}

#[test]
fn meta_pairs() {
    assert_eq!(meta("key", None), Ok((id("key"), None)));
    assert_eq!(
        meta("id", Some(SingleValue::from(2i64))),
        Ok((id("id"), Some(SingleValue::Scalar(Scalar::Integer(2)))))
    );
    assert_eq!(meta("", None), Err(BuildError::EmptyIdent));
}

#[test]
fn type_clone_is_equal() {
    let nested = Type::array(Type::array(Type::named(id("Weapon"))));
    assert_eq!(nested.clone(), nested);
    assert_eq!(Type::Float64.clone(), Type::Float64);
    assert_ne!(Type::Float64, Type::Float32);
}

#[test]
fn table_keeps_fields_in_order() {
    let fields = vec![
        field("a", Type::Int).unwrap(),
        field("b", Type::String).unwrap(),
        array_field("c", Type::Bool).unwrap(),
    ];
    let t = table(id("Monster"), fields.clone()).unwrap();
    assert_eq!(t.kind(), ProductKind::Table);
    assert_eq!(t.name().as_str(), "Monster");
    assert_eq!(t.fields(), &fields);
    assert_eq!(t.metadata(), None);
    assert_eq!(t.doc(), None);
    assert_eq!(t, ProductType::new(ProductKind::Table, id("Monster"), fields).unwrap());
    assert_eq!(t.clone(), t);
}

#[test]
fn struct_is_a_struct() {
    let fields = vec![field("x", Type::Float).unwrap()];
    let s = struct_(id("Vec3"), fields.clone()).unwrap();
    assert_eq!(s.kind(), ProductKind::Struct);
    assert_eq!(s.fields(), &fields);
    assert_ne!(s, table(id("Vec3"), fields).unwrap());
}

#[test]
fn product_without_fields_is_refused() {
    assert_eq!(table(id("Empty"), vec![]), Err(BuildError::EmptyFields));
    assert_eq!(struct_(id("Empty"), vec![]), Err(BuildError::EmptyFields));
    assert_eq!(
        ProductType::new(ProductKind::Table, id("Empty"), vec![]),
        Err(BuildError::EmptyFields)
    );
}

#[test]
fn product_with_metadata_and_doc() {
    let attrs = Metadata::from_pairs(vec![meta("force_align", None).unwrap()]);
    let fields = vec![field("a", Type::Int).unwrap()];
    let t = table(id("T"), fields.clone())
        .unwrap()
        .with_metadata(Some(attrs.clone()))
        .with_doc(Some("a table"));
    assert_eq!(t.metadata(), Some(&attrs));
    assert_eq!(t.doc(), Some("a table"));
    assert_eq!(t.fields(), &fields);
    assert_eq!(t.name().as_str(), "T");
    let cleared = t.with_metadata(None).with_doc(None);
    assert_eq!(cleared, table(id("T"), fields).unwrap());
}

#[test]
fn enum_values_and_kind() {
    let values = vec![
        enum_item("Red", Some(0)).unwrap(),
        enum_item("Green", None).unwrap(),
        enum_item("Blue", Some(-2)).unwrap(),
    ];
    let e = enum_("Color", Type::Byte, values.clone()).unwrap();
    assert_eq!(e.ident().as_str(), "Color");
    assert_eq!(e.kind(), &EnumKind::Enum(Type::Byte));
    assert_eq!(e.values(), &values);
    assert_eq!(e.metadata(), None);
    assert_eq!(values[0].name().as_str(), "Red");
    assert_eq!(values[0].value(), Some(0));
    assert_eq!(values[1].value(), None);
    assert_eq!(values[2], EnumVal::new(id("Blue"), Some(-2)));
    assert_eq!(e, Enum::new(id("Color"), EnumKind::Enum(Type::Byte), values));
    assert_eq!(e.clone(), e);
}

#[test]
fn union_has_no_base_type() {
    let values = vec![enum_item("Sword", None).unwrap(), enum_item("Axe", Some(7)).unwrap()];
    let u = union("Weapon", values.clone()).unwrap();
    assert_eq!(u.kind(), &EnumKind::Union);
    assert_eq!(u.values(), &values);
    assert_eq!(u.values()[1].value(), Some(7));
    let attrs = Metadata::from_pairs(vec![meta("x", None).unwrap()]);
    let with = u.with_metadata(Some(attrs.clone()));
    assert_eq!(with.metadata(), Some(&attrs));
    assert_eq!(with.ident().as_str(), "Weapon");
}

#[test]
fn enum_names_must_not_be_empty() {
    assert_eq!(enum_item("", Some(1)), Err(BuildError::EmptyIdent));
    assert_eq!(enum_("", Type::Int, vec![]), Err(BuildError::EmptyIdent));
    assert_eq!(union("", vec![]), Err(BuildError::EmptyIdent));
}

#[test]
fn rpc_method_parts() {
    let m = method("SayHello", "HelloRequest", "HelloReply").unwrap();
    assert_eq!(m.name().as_str(), "SayHello");
    assert_eq!(m.request_type().as_str(), "HelloRequest");
    assert_eq!(m.response_type().as_str(), "HelloReply");
    assert_eq!(m.metadata(), None);
    assert_eq!(m, RpcMethod::new(id("SayHello"), id("HelloRequest"), id("HelloReply")));
    let attrs = Metadata::from_pairs(vec![meta("streaming", Some(SingleValue::from("server")))
        .unwrap()]);
    let with = m.clone().with_metadata(Some(attrs.clone()));
    assert_eq!(with.metadata(), Some(&attrs));
    assert_eq!(with.name().as_str(), "SayHello");
    assert_ne!(with, m);
}

#[test]
fn rpc_method_names_must_not_be_empty() {
    assert_eq!(method("", "A", "B"), Err(BuildError::EmptyIdent));
    assert_eq!(method("m", "", "B"), Err(BuildError::EmptyIdent));
    assert_eq!(method("m", "A", ""), Err(BuildError::EmptyIdent));
}

#[test]
fn rpc_keeps_methods_in_order() {
    let methods = vec![method("A", "X", "Y").unwrap(), method("B", "Y", "X").unwrap()];
    let service = rpc("Greeter", methods.clone()).unwrap();
    assert_eq!(service.name().as_str(), "Greeter");
    assert_eq!(service.methods(), &methods);
    assert_eq!(service, Rpc::new(id("Greeter"), methods).unwrap());
    assert_eq!(service.clone(), service);
}

#[test]
fn rpc_without_methods_is_refused() {
    assert_eq!(Rpc::new(id("Greeter"), vec![]), Err(BuildError::EmptyMethods));
    assert_eq!(rpc("Greeter", vec![]), Err(BuildError::EmptyMethods));
    assert_eq!(rpc("", vec![]), Err(BuildError::EmptyIdent));
    assert_eq!(rpc("", vec![method("A", "X", "Y").unwrap()]), Err(BuildError::EmptyIdent));
}

fn sample_body<'a>() -> Vec<Element<'a>> {
    vec![
        Element::from(Namespace::parse("a::b").unwrap()),
        Element::from(table(id("T"), vec![field("x", Type::Int).unwrap()]).unwrap()),
        Element::from(enum_("E", Type::Int, vec![enum_item("A", None).unwrap()]).unwrap()),
        Element::from(Root::new(id("T"))),
        Element::from(FileExtension::new("bin")),
        Element::from(FileIdentifier::new("TTTT")),
        Element::from(Attribute::new(id("priority"))),
        Element::from(rpc("S", vec![method("m", "T", "T").unwrap()]).unwrap()),
        Element::from(Object::from_pairs(vec![(id("k"), Value::from(SingleValue::from(1i64)))])),
    ]
}

#[test]
fn element_wraps_each_kind() {
    let body = sample_body();
    assert!(matches!(body[0], Element::Namespace(_)));
    assert!(matches!(body[1], Element::ProductType(_)));
    assert!(matches!(body[2], Element::Enum(_)));
    assert!(matches!(body[3], Element::Root(_)));
    assert!(matches!(body[4], Element::FileExtension(_)));
    assert!(matches!(body[5], Element::FileIdentifier(_)));
    assert!(matches!(body[6], Element::Attribute(_)));
    assert!(matches!(body[7], Element::Rpc(_)));
    assert!(matches!(body[8], Element::Object(_)));
    assert_eq!(body[3], Element::Root(Root::new(id("T"))));
    for element in &body {
        assert_eq!(&element.clone(), element);
    }
}

#[test]
fn schema_counts_and_order() {
    let body = sample_body();
    let schema = Schema::from_paths(vec!["a/one.fbs", "two.fbs", "three"], body.clone()).unwrap();
    assert_eq!(schema.includes().len(), 3);
    assert_eq!(schema.includes()[0], Include::new("a/one.fbs", "one"));
    assert_eq!(schema.includes()[1], Include::new("two.fbs", "two"));
    assert_eq!(schema.includes()[2], Include::new("three", "three"));
    assert_eq!(schema.body().len(), 9);
    assert_eq!(schema.body(), &body);
    assert_eq!(schema.clone(), schema);
}

#[test]
fn schema_from_includes() {
    let includes = vec![Include::new("x.fbs", "x"), Include::new("y.fbs", "y")];
    let schema = Schema::new(includes.clone(), vec![]);
    assert_eq!(schema.includes(), &includes);
    assert!(schema.body().is_empty());
    assert_eq!(schema, Schema::from_paths(vec!["x.fbs", "y.fbs"], vec![]).unwrap());
}

#[test]
fn empty_schema() {
    let schema = Schema::from_paths(vec![], vec![]).unwrap();
    assert!(schema.includes().is_empty());
    assert!(schema.body().is_empty());
    assert_eq!(schema, Schema::new(vec![], vec![]));
}

#[test]
fn schema_with_body_only() {
    let body = sample_body();
    let schema = Schema::from_paths(vec![], body.clone()).unwrap();
    assert!(schema.includes().is_empty());
    assert_eq!(schema.body(), &body);
}

#[test]
fn schema_with_bad_include_is_refused() {
    assert_eq!(
        Schema::from_paths(vec!["ok.fbs", ".."], vec![]),
        Err(BuildError::NoFileStem)
    );
    assert_eq!(Schema::from_paths(vec![""], sample_body()), Err(BuildError::NoFileStem));
}

#[test]
fn schema_from_found_imports() {
    let found = vec![Some(Include::new("x.fbs", "x")), Some(Include::new("d/y.fbs", "y"))];
    let schema = Schema::from_found(found, sample_body()).unwrap();
    assert_eq!(
        schema.includes(),
        &vec![Include::new("x.fbs", "x"), Include::new("d/y.fbs", "y")]
    );
    assert_eq!(schema.body(), &sample_body());
    assert_eq!(
        Schema::from_found(vec![Some(Include::new("x.fbs", "x")), None], vec![]),
        Err(BuildError::NoFileStem)
    );
    assert_eq!(Schema::from_found(vec![], vec![]), Ok(Schema::new(vec![], vec![])));
}
