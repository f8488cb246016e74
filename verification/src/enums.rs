use vstd::prelude::*;
use crate::field::attached;
use crate::ident::Ident;
use crate::metadata::Metadata;
use crate::ty::{Type, TypeModel};
use crate::value::SingleModel;

verus! {

/// What an enumerator holds.
pub struct EnumValModel {
    pub name: Seq<char>,
    pub value: Option<i64>,
}

/// One enumerator: a name and, where it was written, its value. Without one
/// the value is left to whoever lays the enum out.
#[derive(Debug, Clone, Copy, PartialEq, Eq, Hash)]
pub struct EnumVal<'a> {
    pub(crate) name: Ident<'a>,
    pub(crate) value: Option<i64>,
}

impl<'a> View for EnumVal<'a> {
    type V = EnumValModel;

    open(crate) spec fn view(&self) -> EnumValModel {
        EnumValModel { name: self.name@, value: self.value }
    }
}

impl<'a> EnumVal<'a> {
    /// The enumerator `name` with the value `value`, if one is given.
    pub fn new(name: Ident<'a>, value: Option<i64>) -> (made: EnumVal<'a>)
        ensures
            made@ == (EnumValModel { name: name@, value }),
    {
        EnumVal { name, value }
    }

    /// The enumerator's name.
    pub fn name(&self) -> (name: Ident<'a>)
        ensures
            name@ == self@.name,
    {
        self.name
    }

    /// The enumerator's value, where one was written.
    pub fn value(&self) -> (value: Option<i64>)
        ensures
            value == self@.value,
    {
        self.value
    }
}

/// What the enumerators of a run hold, one for one.
pub open spec fn enum_val_models<'a>(values: Seq<EnumVal<'a>>) -> Seq<EnumValModel> {
    Seq::new(values.len(), |i: int| values[i]@)
}

/// What the kind of an enumeration holds.
pub enum EnumKindModel {
    Enum(TypeModel),
    Union,
}

/// Which enumeration a declaration is: an enum over a base type, or a union.
#[derive(Debug, PartialEq, Eq, Hash)]
pub enum EnumKind<'a> {
    Enum(Type<'a>),
    Union,
}

impl<'a> View for EnumKind<'a> {
    type V = EnumKindModel;

    open spec fn view(&self) -> EnumKindModel {
        match *self {
            EnumKind::Enum(base) => EnumKindModel::Enum(base@),
            EnumKind::Union => EnumKindModel::Union,
        }
    }
}

impl<'a> Clone for EnumKind<'a> {
    fn clone(&self) -> (copy: EnumKind<'a>)
        ensures
            copy == *self,
    {
        match self {
            EnumKind::Enum(base) => EnumKind::Enum(base.clone()),
            EnumKind::Union => EnumKind::Union,
        }
    }
}

/// What an enum or union declaration holds.
pub struct EnumModel {
    pub kind: EnumKindModel,
    pub metadata: Option<Map<Seq<char>, Option<SingleModel>>>,
    pub values: Seq<EnumValModel>,
    pub ident: Seq<char>,
}

/// An enum or union declaration: a name and its enumerators, in the order of
/// declaration.
#[derive(Debug, PartialEq)]
pub struct Enum<'a> {
    pub(crate) kind: EnumKind<'a>,
    pub(crate) metadata: Option<Metadata<'a>>,
    pub(crate) values: Vec<EnumVal<'a>>,
    pub(crate) ident: Ident<'a>,
}

impl<'a> View for Enum<'a> {
    type V = EnumModel;

    open(crate) spec fn view(&self) -> EnumModel {
        EnumModel {
            kind: self.kind@,
            metadata: attached(self.metadata),
            values: enum_val_models(self.values@),
            ident: self.ident@,
        }
    }
}

impl<'a> Enum<'a> {
    /// The declaration of kind `kind` called `ident` with the given
    /// enumerators and no attributes.
    pub fn new(ident: Ident<'a>, kind: EnumKind<'a>, values: Vec<EnumVal<'a>>) -> (made: Enum<'a>)
        ensures
            made@ == (EnumModel {
                kind: kind@,
                metadata: None,
                values: enum_val_models(values@),
                ident: ident@,
            }),
    {
        Enum { kind, metadata: None, values, ident }
    }

    /// This declaration with `metadata` in the place of its attributes.
    pub fn with_metadata(self, metadata: Option<Metadata<'a>>) -> (made: Enum<'a>)
        ensures
            made@ == (EnumModel { metadata: attached(metadata), ..self@ }),
    {
        Enum { kind: self.kind, metadata, values: self.values, ident: self.ident }
    }

    /// Whether this is an enum, and over which base type, or a union.
    pub fn kind(&self) -> (kind: &EnumKind<'a>)
        ensures
            kind@ == self@.kind,
    {
        &self.kind
    }

    /// The declared name.
    pub fn ident(&self) -> (ident: Ident<'a>)
        ensures
            ident@ == self@.ident,
    {
        self.ident
    }

    /// The enumerators, in the order of declaration.
    pub fn values(&self) -> (values: &Vec<EnumVal<'a>>)
        ensures
            enum_val_models(values@) == self@.values,
    {
        &self.values
    }

    /// The attributes, if there are any.
    pub fn metadata(&self) -> (metadata: Option<&Metadata<'a>>)
        ensures
            match metadata {
                Some(m) => self@.metadata == Some(m@),
                None => self@.metadata is None,
            },
    {
        self.metadata.as_ref()
    }
}

impl<'a> Clone for Enum<'a> {
    fn clone(&self) -> (copy: Enum<'a>)
        ensures
            copy@ == self@,
    {
        let values = self.values.clone();
        assert(enum_val_models(values@) =~= enum_val_models(self.values@));
        Enum {
            kind: self.kind.clone(),
            metadata: self.metadata.clone(),
            values,
            ident: self.ident,
        }
    }
}

} // verus!
