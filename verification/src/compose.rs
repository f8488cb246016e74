use vstd::prelude::*;
use crate::enums::{enum_val_models, Enum, EnumKind, EnumKindModel, EnumModel, EnumVal, EnumValModel};
use crate::error::BuildError;
use crate::field::{Field, FieldModel};
use crate::ident::Ident;
use crate::rpc::{method_models, Rpc, RpcMethod, RpcMethodModel, RpcModel};
use crate::ty::{Type, TypeModel};
use crate::value::{Scalar, SingleValue};

verus! {

/// The field `name` of type `ty`, with no default. An empty name is refused.
pub fn field<'a>(name: &'a str, ty: Type<'a>) -> (made: Result<Field<'a>, BuildError>)
    ensures
        name@.len() == 0 <==> made == Err::<Field<'a>, BuildError>(BuildError::EmptyIdent),
        name@.len() > 0 <==> made.is_ok(),
        made.is_ok() ==> made.unwrap()@ == (FieldModel {
            name: name@,
            ty: ty@,
            default: None,
            metadata: None,
        }),
{
    match Ident::new(name) {
        Ok(id) => Ok(Field::new(id, ty)),
        Err(e) => Err(e),
    }
}

/// The field `name` of type `ty` with the default `default`. An empty name
/// is refused; the default is taken as it is, whatever the type.
pub fn field_with_default<'a>(name: &'a str, ty: Type<'a>, default: Scalar) -> (made: Result<
    Field<'a>,
    BuildError,
>)
    ensures
        name@.len() == 0 <==> made == Err::<Field<'a>, BuildError>(BuildError::EmptyIdent),
        name@.len() > 0 <==> made.is_ok(),
        made.is_ok() ==> made.unwrap()@ == (FieldModel {
            name: name@,
            ty: ty@,
            default: Some(default),
            metadata: None,
        }),
{
    match Ident::new(name) {
        Ok(id) => Ok(Field::new(id, ty).with_scalar(default)),
        Err(e) => Err(e),
    }
}

/// The field `name` whose type is the array of `element`, with no default.
/// An empty name is refused.
pub fn array_field<'a>(name: &'a str, element: Type<'a>) -> (made: Result<Field<'a>, BuildError>)
    ensures
        name@.len() == 0 <==> made == Err::<Field<'a>, BuildError>(BuildError::EmptyIdent),
        name@.len() > 0 <==> made.is_ok(),
        made.is_ok() ==> made.unwrap()@ == (FieldModel {
            name: name@,
            ty: TypeModel::Array(Box::new(element@)),
            default: None,
            metadata: None,
        }),
{
    match Ident::new(name) {
        Ok(id) => Ok(Field::new(id, Type::array(element))),
        Err(e) => Err(e),
    }
}

/// The attribute `key` with the given payload, or as a bare marker, as a
/// pair to build attributes from. An empty key is refused.
pub fn meta<'a>(key: &'a str, payload: Option<SingleValue<'a>>) -> (made: Result<
    (Ident<'a>, Option<SingleValue<'a>>),
    BuildError,
>)
    ensures
        key@.len() == 0 <==> made == Err::<(Ident<'a>, Option<SingleValue<'a>>), BuildError>(
            BuildError::EmptyIdent,
        ),
        key@.len() > 0 <==> made.is_ok(),
        made.is_ok() ==> made.unwrap().0@ == key@ && made.unwrap().1 == payload,
{
    match Ident::new(key) {
        Ok(id) => Ok((id, payload)),
        Err(e) => Err(e),
    }
}

/// The enumerator `name` with the value `value`, if one is given. An empty
/// name is refused.
pub fn enum_item<'a>(name: &'a str, value: Option<i64>) -> (made: Result<EnumVal<'a>, BuildError>)
    ensures
        name@.len() == 0 <==> made == Err::<EnumVal<'a>, BuildError>(BuildError::EmptyIdent),
        name@.len() > 0 <==> made.is_ok(),
        made.is_ok() ==> made.unwrap()@ == (EnumValModel { name: name@, value }),
{
    match Ident::new(name) {
        Ok(id) => Ok(EnumVal::new(id, value)),
        Err(e) => Err(e),
    }
}

/// The enum `name` over the base type `base` with the given enumerators. An
/// empty name is refused.
pub fn enum_<'a>(name: &'a str, base: Type<'a>, values: Vec<EnumVal<'a>>) -> (made: Result<
    Enum<'a>,
    BuildError,
>)
    ensures
        name@.len() == 0 <==> made == Err::<Enum<'a>, BuildError>(BuildError::EmptyIdent),
        name@.len() > 0 <==> made.is_ok(),
        made.is_ok() ==> made.unwrap()@ == (EnumModel {
            kind: EnumKindModel::Enum(base@),
            metadata: None,
            values: enum_val_models(values@),
            ident: name@,
        }),
{
    match Ident::new(name) {
        Ok(id) => Ok(Enum::new(id, EnumKind::Enum(base), values)),
        Err(e) => Err(e),
    }
}

/// The union `name` with the given enumerators. An empty name is refused.
pub fn union<'a>(name: &'a str, values: Vec<EnumVal<'a>>) -> (made: Result<Enum<'a>, BuildError>)
    ensures
        name@.len() == 0 <==> made == Err::<Enum<'a>, BuildError>(BuildError::EmptyIdent),
        name@.len() > 0 <==> made.is_ok(),
        made.is_ok() ==> made.unwrap()@ == (EnumModel {
            kind: EnumKindModel::Union,
            metadata: None,
            values: enum_val_models(values@),
            ident: name@,
        }),
{
    match Ident::new(name) {
        Ok(id) => Ok(Enum::new(id, EnumKind::Union, values)),
        Err(e) => Err(e),
    }
}

/// The method `name` from the table `request` to the table `response`, with
/// no attributes. An empty name, of the method or of a table, is refused.
pub fn method<'a>(name: &'a str, request: &'a str, response: &'a str) -> (made: Result<
    RpcMethod<'a>,
    BuildError,
>)
    ensures
        (name@.len() == 0 || request@.len() == 0 || response@.len() == 0) <==> made == Err::<
            RpcMethod<'a>,
            BuildError,
        >(BuildError::EmptyIdent),
        (name@.len() > 0 && request@.len() > 0 && response@.len() > 0) <==> made.is_ok(),
        made.is_ok() ==> made.unwrap()@ == (RpcMethodModel {
            name: name@,
            request_type: request@,
            response_type: response@,
            metadata: None,
        }),
{
    let name_id = match Ident::new(name) {
        Ok(id) => id,
        Err(e) => {
            return Err(e);
        },
    };
    let request_id = match Ident::new(request) {
        Ok(id) => id,
        Err(e) => {
            return Err(e);
        },
    };
    let response_id = match Ident::new(response) {
        Ok(id) => id,
        Err(e) => {
            return Err(e);
        },
    };
    Ok(RpcMethod::new(name_id, request_id, response_id))
}

/// The service `name` with the given methods. An empty name is refused, and
/// under a name a service without methods.
pub fn rpc<'a>(name: &'a str, methods: Vec<RpcMethod<'a>>) -> (made: Result<Rpc<'a>, BuildError>)
    ensures
        name@.len() == 0 <==> made == Err::<Rpc<'a>, BuildError>(BuildError::EmptyIdent),
        (name@.len() > 0 && methods@.len() == 0) <==> made == Err::<Rpc<'a>, BuildError>(
            BuildError::EmptyMethods,
        ),
        (name@.len() > 0 && methods@.len() > 0) <==> made.is_ok(),
        made.is_ok() ==> made.unwrap()@ == (RpcModel {
            name: name@,
            methods: method_models(methods@),
        }),
{
    match Ident::new(name) {
        Ok(id) => Rpc::new(id, methods),
        Err(e) => Err(e),
    }
}

} // verus!
