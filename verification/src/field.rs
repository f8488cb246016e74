use vstd::prelude::*;
use crate::ident::Ident;
use crate::metadata::Metadata;
use crate::ty::{Type, TypeModel};
use crate::value::{Scalar, SingleModel};

verus! {

/// What an optional attribute list holds.
pub open spec fn attached<'a>(metadata: Option<Metadata<'a>>) -> Option<
    Map<Seq<char>, Option<SingleModel>>,
> {
    match metadata {
        Some(m) => Some(m@),
        None => None,
    }
}

/// What a field holds.
pub struct FieldModel {
    pub name: Seq<char>,
    pub ty: TypeModel,
    pub default: Option<Scalar>,
    pub metadata: Option<Map<Seq<char>, Option<SingleModel>>>,
}

/// One member of a table or struct.
#[derive(Debug, PartialEq)]
pub struct Field<'a> {
    pub(crate) name: Ident<'a>,
    pub(crate) ty: Type<'a>,
    pub(crate) scalar: Option<Scalar>,
    pub(crate) metadata: Option<Metadata<'a>>,
}

impl<'a> View for Field<'a> {
    type V = FieldModel;

    open(crate) spec fn view(&self) -> FieldModel {
        FieldModel {
            name: self.name@,
            ty: self.ty@,
            default: self.scalar,
            metadata: attached(self.metadata),
        }
    }
}

/// What the fields of a run hold, one for one.
pub open spec fn field_models<'a>(fields: Seq<Field<'a>>) -> Seq<FieldModel> {
    Seq::new(fields.len(), |i: int| fields[i]@)
}

impl<'a> Field<'a> {
    /// The field `name` of type `ty`, with no default and no attributes.
    pub fn new(name: Ident<'a>, ty: Type<'a>) -> (made: Field<'a>)
        ensures
            made@ == (FieldModel { name: name@, ty: ty@, default: None, metadata: None }),
    {
        Field { name, ty, scalar: None, metadata: None }
    }

    /// This field with `scalar` as its default. The default is taken as it
    /// is, whatever the field's type.
    pub fn with_scalar(self, scalar: Scalar) -> (made: Field<'a>)
        ensures
            made@ == (FieldModel { default: Some(scalar), ..self@ }),
    {
        Field { name: self.name, ty: self.ty, scalar: Some(scalar), metadata: self.metadata }
    }

    /// This field with `metadata` as its attributes.
    pub fn with_metadata(self, metadata: Metadata<'a>) -> (made: Field<'a>)
        ensures
            made@ == (FieldModel { metadata: Some(metadata@), ..self@ }),
    {
        Field { name: self.name, ty: self.ty, scalar: self.scalar, metadata: Some(metadata) }
    }

    /// The field's name.
    pub fn name(&self) -> (name: Ident<'a>)
        ensures
            name@ == self@.name,
    {
        self.name
    }

    /// The field's type.
    pub fn ty(&self) -> (ty: &Type<'a>)
        ensures
            ty@ == self@.ty,
    {
        &self.ty
    }

    /// The field's default, if it has one.
    pub fn scalar(&self) -> (default: Option<Scalar>)
        ensures
            default == self@.default,
    {
        self.scalar
    }

    /// The field's attributes, if it has any.
    pub fn metadata(&self) -> (metadata: Option<&Metadata<'a>>)
        ensures
            match metadata {
                Some(m) => self@.metadata == Some(m@),
                None => self@.metadata is None,
            },
    {
        self.metadata.as_ref()
    }
}

impl<'a> Clone for Field<'a> {
    fn clone(&self) -> (copy: Field<'a>)
        ensures
            copy@ == self@,
    {
        Field {
            name: self.name,
            ty: self.ty.clone(),
            scalar: self.scalar,
            metadata: self.metadata.clone(),
        }
    }
}

} // verus!
