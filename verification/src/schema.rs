use vstd::prelude::*;
use vstd::std_specs::convert::FromSpecImpl;
use crate::enums::{Enum, EnumModel};
use crate::error::BuildError;
use crate::file::{is_piece_of, FileExtension, FileIdentifier, Include, IncludeModel};
use crate::ident::{Attribute, Namespace, Root};
use crate::product::{ProductModel, ProductType};
use crate::rpc::{Rpc, RpcModel};
use crate::value::{Object, ValueModel};

verus! {

/// What a top-level declaration holds.
pub enum ElementModel {
    Namespace(Seq<Seq<char>>),
    ProductType(ProductModel),
    Enum(EnumModel),
    Root(Seq<char>),
    FileExtension(Seq<char>),
    FileIdentifier(Seq<char>),
    Attribute(Seq<char>),
    Rpc(RpcModel),
    Object(Map<Seq<char>, ValueModel>),
}

/// Any top-level declaration of a schema.
#[derive(Debug, PartialEq)]
pub enum Element<'a> {
    Namespace(Namespace<'a>),
    ProductType(ProductType<'a>),
    Enum(Enum<'a>),
    Root(Root<'a>),
    FileExtension(FileExtension<'a>),
    FileIdentifier(FileIdentifier<'a>),
    Attribute(Attribute<'a>),
    Rpc(Rpc<'a>),
    Object(Object<'a>),
}

impl<'a> View for Element<'a> {
    type V = ElementModel;

    open spec fn view(&self) -> ElementModel {
        match *self {
            Element::Namespace(x) => ElementModel::Namespace(x@),
            Element::ProductType(x) => ElementModel::ProductType(x@),
            Element::Enum(x) => ElementModel::Enum(x@),
            Element::Root(x) => ElementModel::Root(x@),
            Element::FileExtension(x) => ElementModel::FileExtension(x@),
            Element::FileIdentifier(x) => ElementModel::FileIdentifier(x@),
            Element::Attribute(x) => ElementModel::Attribute(x@),
            Element::Rpc(x) => ElementModel::Rpc(x@),
            Element::Object(x) => ElementModel::Object(x@),
        }
    }
}

impl<'a> Clone for Element<'a> {
    fn clone(&self) -> (copy: Element<'a>)
        ensures
            copy@ == self@,
    {
        match self {
            Element::Namespace(x) => Element::Namespace(x.clone()),
            Element::ProductType(x) => Element::ProductType(x.clone()),
            Element::Enum(x) => Element::Enum(x.clone()),
            Element::Root(x) => Element::Root(*x),
            Element::FileExtension(x) => Element::FileExtension(*x),
            Element::FileIdentifier(x) => Element::FileIdentifier(*x),
            Element::Attribute(x) => Element::Attribute(*x),
            Element::Rpc(x) => Element::Rpc(x.clone()),
            Element::Object(x) => Element::Object(x.clone()),
        }
    }
}

/// What the imports of a run hold, one for one.
pub open spec fn include_models<'a>(includes: Seq<Include<'a>>) -> Seq<IncludeModel> {
    Seq::new(includes.len(), |i: int| includes[i]@)
}

/// What the declarations of a run hold, one for one.
pub open spec fn element_models<'a>(body: Seq<Element<'a>>) -> Seq<ElementModel> {
    Seq::new(body.len(), |i: int| body[i]@)
}

/// What a schema holds.
pub struct SchemaModel {
    pub includes: Seq<IncludeModel>,
    pub body: Seq<ElementModel>,
}

/// One compilation unit: its imports, then its declarations, each in the
/// order in which they were supplied.
#[derive(Debug, PartialEq)]
pub struct Schema<'a> {
    pub(crate) includes: Vec<Include<'a>>,
    pub(crate) body: Vec<Element<'a>>,
}

impl<'a> View for Schema<'a> {
    type V = SchemaModel;

    open(crate) spec fn view(&self) -> SchemaModel {
        SchemaModel { includes: include_models(self.includes@), body: element_models(self.body@) }
    }
}

/// Whether `includes` are the imports of `paths`, one for one: each carries
/// its path, and a stem that is a piece of it.
pub open spec fn imports_of(includes: Seq<IncludeModel>, paths: Seq<Seq<char>>) -> bool {
    &&& includes.len() == paths.len()
    &&& forall|i: int|
        0 <= i < paths.len() ==> (#[trigger] includes[i]).path == paths[i] && is_piece_of(
            includes[i].stem,
            paths[i],
        )
}

/// The texts of a run of paths, in order.
pub open spec fn path_texts<'a>(paths: Seq<&'a str>) -> Seq<Seq<char>> {
    Seq::new(paths.len(), |i: int| paths[i]@)
}

impl<'a> Schema<'a> {
    /// The schema with the given imports and declarations, in the given
    /// order.
    pub fn new(includes: Vec<Include<'a>>, body: Vec<Element<'a>>) -> (made: Schema<'a>)
        ensures
            made@ == (SchemaModel {
                includes: include_models(includes@),
                body: element_models(body@),
            }),
    {
        Schema { includes, body }
    }

    /// The schema with the imports in `found` and the given declarations, in
    /// the given order. A place of `found` that holds no import stands for a
    /// path that gave none: with one such place the schema is refused.
    pub fn from_found(found: Vec<Option<Include<'a>>>, body: Vec<Element<'a>>) -> (made: Result<
        Schema<'a>,
        BuildError,
    >)
        ensures
            (exists|i: int| 0 <= i < found@.len() && found@[i] is None) <==> made == Err::<
                Schema<'a>,
                BuildError,
            >(BuildError::NoFileStem),
            (forall|i: int| 0 <= i < found@.len() ==> found@[i] is Some) <==> made.is_ok(),
            made.is_ok() ==> made.unwrap()@ == (SchemaModel {
                includes: Seq::new(found@.len(), |i: int| found@[i].unwrap()@),
                body: element_models(body@),
            }),
    {
        let mut includes: Vec<Include<'a>> = Vec::new();
        let n: usize = found.len();
        let mut i: usize = 0;
        while i < n
            invariant
                i <= n,
                n == found@.len(),
                includes@.len() == i,
                forall|k: int| 0 <= k < i ==> #[trigger] found@[k] == Some(includes@[k]),
            decreases n - i,
        {
            match found[i] {
                Some(import) => {
                    includes.push(import);
                },
                None => {
                    return Err(BuildError::NoFileStem);
                },
            }
            i += 1;
        }
        assert(include_models(includes@) =~= Seq::new(
            found@.len(),
            |i: int| found@[i].unwrap()@,
        ));
        Ok(Schema { includes, body })
    }

    /// The schema that imports the files at `paths`, each under the stem
    /// that its path gives, and holds the given declarations. A path that
    /// ends in no file name is refused; with no path there is nothing to
    /// refuse.
    pub fn from_paths(paths: Vec<&'a str>, body: Vec<Element<'a>>) -> (made: Result<
        Schema<'a>,
        BuildError,
    >)
        ensures
            paths@.len() == 0 ==> made.is_ok(),
            made.is_err() ==> made == Err::<Schema<'a>, BuildError>(BuildError::NoFileStem),
            made.is_ok() ==> imports_of(made.unwrap()@.includes, path_texts(paths@))
                && made.unwrap()@.body == element_models(body@),
    {
        let mut found: Vec<Option<Include<'a>>> = Vec::new();
        let n: usize = paths.len();
        let mut i: usize = 0;
        while i < n
            invariant
                i <= n,
                n == paths@.len(),
                found@.len() == i,
                forall|k: int|
                    0 <= k < i ==> (#[trigger] found@[k] matches Some(import) ==> import@.path
                        == paths@[k]@ && is_piece_of(import@.stem, paths@[k]@)),
            decreases n - i,
        {
            found.push(Include::from_path(paths[i]));
            i += 1;
        }
        let ghost given = found@;
        let made = Schema::from_found(found, body);
        proof {
            if made.is_ok() {
                let models = made.unwrap()@.includes;
                assert forall|k: int| 0 <= k < paths@.len() implies (#[trigger] models[k]).path
                    == path_texts(paths@)[k] && is_piece_of(
                    models[k].stem,
                    path_texts(paths@)[k],
                ) by {
                    assert(given[k] is Some);
                }
            }
        }
        made
    }

    /// The imports, in the order supplied.
    pub fn includes(&self) -> (includes: &Vec<Include<'a>>)
        ensures
            include_models(includes@) == self@.includes,
    {
        &self.includes
    }

    /// The declarations, in the order supplied.
    pub fn body(&self) -> (body: &Vec<Element<'a>>)
        ensures
            element_models(body@) == self@.body,
    {
        &self.body
    }
}

impl<'a> Clone for Schema<'a> {
    fn clone(&self) -> (copy: Schema<'a>)
        ensures
            copy@ == self@,
    {
        let includes = self.includes.clone();
        let body = self.body.clone();
        assert(include_models(includes@) =~= include_models(self.includes@));
        assert(element_models(body@) =~= element_models(self.body@));
        Schema { includes, body }
    }
}

impl<'a> From<Namespace<'a>> for Element<'a> {
    fn from(v: Namespace<'a>) -> (made: Element<'a>) {
        Element::Namespace(v)
    }
}

impl<'a> FromSpecImpl<Namespace<'a>> for Element<'a> {
    open spec fn obeys_from_spec() -> bool {
        true
    }

    open spec fn from_spec(v: Namespace<'a>) -> Element<'a> {
        Element::Namespace(v)
    }
}

impl<'a> From<ProductType<'a>> for Element<'a> {
    fn from(v: ProductType<'a>) -> (made: Element<'a>) {
        Element::ProductType(v)
    }
}

impl<'a> FromSpecImpl<ProductType<'a>> for Element<'a> {
    open spec fn obeys_from_spec() -> bool {
        true
    }

    open spec fn from_spec(v: ProductType<'a>) -> Element<'a> {
        Element::ProductType(v)
    }
}

impl<'a> From<Enum<'a>> for Element<'a> {
    fn from(v: Enum<'a>) -> (made: Element<'a>) {
        Element::Enum(v)
    }
}

impl<'a> FromSpecImpl<Enum<'a>> for Element<'a> {
    open spec fn obeys_from_spec() -> bool {
        true
    }

    open spec fn from_spec(v: Enum<'a>) -> Element<'a> {
        Element::Enum(v)
    }
}

impl<'a> From<Root<'a>> for Element<'a> {
    fn from(v: Root<'a>) -> (made: Element<'a>) {
        Element::Root(v)
    }
}

impl<'a> FromSpecImpl<Root<'a>> for Element<'a> {
    open spec fn obeys_from_spec() -> bool {
        true
    }

    open spec fn from_spec(v: Root<'a>) -> Element<'a> {
        Element::Root(v)
    }
}

impl<'a> From<FileExtension<'a>> for Element<'a> {
    fn from(v: FileExtension<'a>) -> (made: Element<'a>) {
        Element::FileExtension(v)
    }
}

impl<'a> FromSpecImpl<FileExtension<'a>> for Element<'a> {
    open spec fn obeys_from_spec() -> bool {
        true
    }

    open spec fn from_spec(v: FileExtension<'a>) -> Element<'a> {
        Element::FileExtension(v)
    }
}

impl<'a> From<FileIdentifier<'a>> for Element<'a> {
    fn from(v: FileIdentifier<'a>) -> (made: Element<'a>) {
        Element::FileIdentifier(v)
    }
}

impl<'a> FromSpecImpl<FileIdentifier<'a>> for Element<'a> {
    open spec fn obeys_from_spec() -> bool {
        true
    }

    open spec fn from_spec(v: FileIdentifier<'a>) -> Element<'a> {
        Element::FileIdentifier(v)
    }
}

impl<'a> From<Attribute<'a>> for Element<'a> {
    fn from(v: Attribute<'a>) -> (made: Element<'a>) {
        Element::Attribute(v)
    }
}

impl<'a> FromSpecImpl<Attribute<'a>> for Element<'a> {
    open spec fn obeys_from_spec() -> bool {
        true
    }

    open spec fn from_spec(v: Attribute<'a>) -> Element<'a> {
        Element::Attribute(v)
    }
}

impl<'a> From<Rpc<'a>> for Element<'a> {
    fn from(v: Rpc<'a>) -> (made: Element<'a>) {
        Element::Rpc(v)
    }
}

impl<'a> FromSpecImpl<Rpc<'a>> for Element<'a> {
    open spec fn obeys_from_spec() -> bool {
        true
    }

    open spec fn from_spec(v: Rpc<'a>) -> Element<'a> {
        Element::Rpc(v)
    }
}

impl<'a> From<Object<'a>> for Element<'a> {
    fn from(v: Object<'a>) -> (made: Element<'a>) {
        Element::Object(v)
    }
}

impl<'a> FromSpecImpl<Object<'a>> for Element<'a> {
    open spec fn obeys_from_spec() -> bool {
        true
    }

    open spec fn from_spec(v: Object<'a>) -> Element<'a> {
        Element::Object(v)
    }
}

} // verus!
