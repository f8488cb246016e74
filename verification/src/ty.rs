use vstd::prelude::*;
use crate::ident::Ident;

verus! {

/// What a type holds: its kind, for an array what its element type holds,
/// for a reference the text of the name.
pub enum TypeModel {
    Bool,
    Byte,
    UByte,
    Short,
    UShort,
    Int,
    UInt,
    Float,
    Long,
    ULong,
    Double,
    Int8,
    UInt8,
    Int16,
    UInt16,
    Int32,
    UInt32,
    Int64,
    UInt64,
    Float32,
    Float64,
    String,
    Array(Box<TypeModel>),
    Named(Seq<char>),
}

/// The type of a field, or the base type of an enum: a built-in kind, an
/// array of a type, or a reference by name to a declaration.
#[derive(Debug, PartialEq, Eq, Hash)]
pub enum Type<'a> {
    Bool,
    Byte,
    UByte,
    Short,
    UShort,
    Int,
    UInt,
    Float,
    Long,
    ULong,
    Double,
    Int8,
    UInt8,
    Int16,
    UInt16,
    Int32,
    UInt32,
    Int64,
    UInt64,
    Float32,
    Float64,
    String,
    Array(Box<Type<'a>>),
    Ident(Ident<'a>),
}

impl<'a> Type<'a> {
    /// What this type holds.
    pub open spec fn model(self) -> TypeModel
        decreases self,
    {
        match self {
            Type::Bool => TypeModel::Bool,
            Type::Byte => TypeModel::Byte,
            Type::UByte => TypeModel::UByte,
            Type::Short => TypeModel::Short,
            Type::UShort => TypeModel::UShort,
            Type::Int => TypeModel::Int,
            Type::UInt => TypeModel::UInt,
            Type::Float => TypeModel::Float,
            Type::Long => TypeModel::Long,
            Type::ULong => TypeModel::ULong,
            Type::Double => TypeModel::Double,
            Type::Int8 => TypeModel::Int8,
            Type::UInt8 => TypeModel::UInt8,
            Type::Int16 => TypeModel::Int16,
            Type::UInt16 => TypeModel::UInt16,
            Type::Int32 => TypeModel::Int32,
            Type::UInt32 => TypeModel::UInt32,
            Type::Int64 => TypeModel::Int64,
            Type::UInt64 => TypeModel::UInt64,
            Type::Float32 => TypeModel::Float32,
            Type::Float64 => TypeModel::Float64,
            Type::String => TypeModel::String,
            Type::Array(element) => TypeModel::Array(Box::new(element.model())),
            Type::Ident(name) => TypeModel::Named(name@),
        }
    }

    /// The type of arrays whose elements have the type `element`.
    pub fn array(element: Type<'a>) -> (made: Type<'a>)
        ensures
            made@ == TypeModel::Array(Box::new(element@)),
    {
        Type::Array(Box::new(element))
    }

    /// The reference to the declaration called `name`.
    pub fn named(name: Ident<'a>) -> (made: Type<'a>)
        ensures
            made@ == TypeModel::Named(name@),
    {
        Type::Ident(name)
    }
}

impl<'a> View for Type<'a> {
    type V = TypeModel;

    open spec fn view(&self) -> TypeModel {
        self.model()
    }
}

impl<'a> Clone for Type<'a> {
    fn clone(&self) -> (copy: Type<'a>)
        ensures
            copy == *self,
        decreases self,
    {
        match self {
            Type::Bool => Type::Bool,
            Type::Byte => Type::Byte,
            Type::UByte => Type::UByte,
            Type::Short => Type::Short,
            Type::UShort => Type::UShort,
            Type::Int => Type::Int,
            Type::UInt => Type::UInt,
            Type::Float => Type::Float,
            Type::Long => Type::Long,
            Type::ULong => Type::ULong,
            Type::Double => Type::Double,
            Type::Int8 => Type::Int8,
            Type::UInt8 => Type::UInt8,
            Type::Int16 => Type::Int16,
            Type::UInt16 => Type::UInt16,
            Type::Int32 => Type::Int32,
            Type::UInt32 => Type::UInt32,
            Type::Int64 => Type::Int64,
            Type::UInt64 => Type::UInt64,
            Type::Float32 => Type::Float32,
            Type::Float64 => Type::Float64,
            Type::String => Type::String,
            Type::Array(element) => Type::Array(Box::new((**element).clone())),
            Type::Ident(name) => Type::Ident(*name),
        }
    }
}

} // verus!
