use vstd::prelude::*;
use crate::error::BuildError;
use crate::field::{attached, field_models, Field, FieldModel};
use crate::ident::Ident;
use crate::metadata::Metadata;
use crate::value::SingleModel;

verus! {

/// Which of the two product declarations one is.
#[derive(Debug, Clone, Copy, PartialEq, Eq, Hash, Structural)]
pub enum ProductKind {
    Table,
    Struct,
}

/// What a table or struct declaration holds.
pub struct ProductModel {
    pub kind: ProductKind,
    pub name: Seq<char>,
    pub fields: Seq<FieldModel>,
    pub metadata: Option<Map<Seq<char>, Option<SingleModel>>>,
    pub doc: Option<Seq<char>>,
}

/// What an optional doc text holds.
pub open spec fn doc_model<'a>(doc: Option<&'a str>) -> Option<Seq<char>> {
    match doc {
        Some(text) => Some(text@),
        None => None,
    }
}

/// A table or struct declaration: a name and one field or more, in the
/// order of declaration.
#[derive(Debug, PartialEq)]
pub struct ProductType<'a> {
    pub(crate) kind: ProductKind,
    pub(crate) name: Ident<'a>,
    pub(crate) fields: Vec<Field<'a>>,
    pub(crate) metadata: Option<Metadata<'a>>,
    pub(crate) doc: Option<&'a str>,
}

impl<'a> View for ProductType<'a> {
    type V = ProductModel;

    open(crate) spec fn view(&self) -> ProductModel {
        ProductModel {
            kind: self.kind,
            name: self.name@,
            fields: field_models(self.fields@),
            metadata: attached(self.metadata),
            doc: doc_model(self.doc),
        }
    }
}

impl<'a> ProductType<'a> {
    #[verifier::type_invariant]
    spec fn has_fields(self) -> bool {
        self.fields@.len() > 0
    }

    /// The declaration of kind `kind` called `name` with the given fields,
    /// no attributes and no doc text. A declaration without fields is
    /// refused.
    pub fn new(kind: ProductKind, name: Ident<'a>, fields: Vec<Field<'a>>) -> (made: Result<
        ProductType<'a>,
        BuildError,
    >)
        ensures
            fields@.len() == 0 <==> made == Err::<ProductType<'a>, BuildError>(
                BuildError::EmptyFields,
            ),
            fields@.len() > 0 <==> made.is_ok(),
            made.is_ok() ==> made.unwrap()@ == (ProductModel {
                kind,
                name: name@,
                fields: field_models(fields@),
                metadata: None,
                doc: None,
            }),
    {
        if fields.len() == 0 {
            Err(BuildError::EmptyFields)
        } else {
            Ok(ProductType { kind, name, fields, metadata: None, doc: None })
        }
    }

    /// This declaration with `metadata` in the place of its attributes.
    pub fn with_metadata(self, metadata: Option<Metadata<'a>>) -> (made: ProductType<'a>)
        ensures
            made@ == (ProductModel { metadata: attached(metadata), ..self@ }),
    {
        proof {
            use_type_invariant(&self);
        }
        ProductType {
            kind: self.kind,
            name: self.name,
            fields: self.fields,
            metadata,
            doc: self.doc,
        }
    }

    /// This declaration with `doc` in the place of its doc text.
    pub fn with_doc(self, doc: Option<&'a str>) -> (made: ProductType<'a>)
        ensures
            made@ == (ProductModel { doc: doc_model(doc), ..self@ }),
    {
        proof {
            use_type_invariant(&self);
        }
        ProductType {
            kind: self.kind,
            name: self.name,
            fields: self.fields,
            metadata: self.metadata,
            doc,
        }
    }

    /// Whether this is a table or a struct.
    pub fn kind(&self) -> (kind: ProductKind)
        ensures
            kind == self@.kind,
    {
        self.kind
    }

    /// The declared name.
    pub fn name(&self) -> (name: Ident<'a>)
        ensures
            name@ == self@.name,
    {
        self.name
    }

    /// The fields, in the order of declaration: one at least.
    pub fn fields(&self) -> (fields: &Vec<Field<'a>>)
        ensures
            fields@.len() > 0,
            field_models(fields@) == self@.fields,
    {
        proof {
            use_type_invariant(self);
        }
        &self.fields
    }

    /// The attributes, if there are any.
    pub fn metadata(&self) -> (metadata: Option<&Metadata<'a>>)
        ensures
            match metadata {
                Some(m) => self@.metadata == Some(m@),
                None => self@.metadata is None,
            },
    {
        self.metadata.as_ref()
    }

    /// The doc text, if there is one.
    pub fn doc(&self) -> (doc: Option<&'a str>)
        ensures
            doc_model(doc) == self@.doc,
    {
        self.doc
    }
}

/// The table called `name` with the given fields; refused without fields.
pub fn table<'a>(name: Ident<'a>, fields: Vec<Field<'a>>) -> (made: Result<
    ProductType<'a>,
    BuildError,
>)
    ensures
        fields@.len() == 0 <==> made == Err::<ProductType<'a>, BuildError>(BuildError::EmptyFields),
        fields@.len() > 0 <==> made.is_ok(),
        made.is_ok() ==> made.unwrap()@ == (ProductModel {
            kind: ProductKind::Table,
            name: name@,
            fields: field_models(fields@),
            metadata: None,
            doc: None,
        }),
{
    ProductType::new(ProductKind::Table, name, fields)
}

/// The struct called `name` with the given fields; refused without fields.
pub fn struct_<'a>(name: Ident<'a>, fields: Vec<Field<'a>>) -> (made: Result<
    ProductType<'a>,
    BuildError,
>)
    ensures
        fields@.len() == 0 <==> made == Err::<ProductType<'a>, BuildError>(BuildError::EmptyFields),
        fields@.len() > 0 <==> made.is_ok(),
        made.is_ok() ==> made.unwrap()@ == (ProductModel {
            kind: ProductKind::Struct,
            name: name@,
            fields: field_models(fields@),
            metadata: None,
            doc: None,
        }),
{
    ProductType::new(ProductKind::Struct, name, fields)
}

impl<'a> Clone for ProductType<'a> {
    fn clone(&self) -> (copy: ProductType<'a>)
        ensures
            copy@ == self@,
    {
        proof {
            use_type_invariant(self);
        }
        let fields = self.fields.clone();
        assert(field_models(fields@) =~= field_models(self.fields@));
        ProductType {
            kind: self.kind,
            name: self.name,
            fields,
            metadata: self.metadata.clone(),
            doc: self.doc,
        }
    }
}

} // verus!
