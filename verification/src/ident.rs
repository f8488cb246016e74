use vstd::prelude::*;
use crate::error::BuildError;
use crate::path::{sep_at, split, path_parts, lemma_sep_shift, lemma_split_none, lemma_split_at};
use vstd::string::StrSliceExecFns;

verus! {

/// A name token: a view into the schema text, never empty.
#[derive(Debug, Clone, Copy, PartialEq, Eq, Hash)]
pub struct Ident<'a>(pub(crate) &'a str);

impl<'a> View for Ident<'a> {
    type V = Seq<char>;

    open(crate) spec fn view(&self) -> Seq<char> {
        self.0@
    }
}

impl<'a> Ident<'a> {
    #[verifier::type_invariant]
    spec fn non_empty(self) -> bool {
        self.0@.len() > 0
    }

    /// Wraps a name token as it stands; an empty token is no name.
    pub fn new(name: &'a str) -> (made: Result<Ident<'a>, BuildError>)
        ensures
            name@.len() == 0 <==> made == Err::<Ident<'a>, BuildError>(BuildError::EmptyIdent),
            name@.len() > 0 <==> made.is_ok(),
            made.is_ok() ==> made.unwrap()@ == name@,
    {
        if name.is_empty() {
            Err(BuildError::EmptyIdent)
        } else {
            Ok(Ident(name))
        }
    }

    /// The token's text.
    pub fn as_str(&self) -> (text: &'a str)
        ensures
            text@ == self@,
            text@.len() > 0,
    {
        proof {
            use_type_invariant(self);
        }
        self.0
    }
}

/// A custom attribute name that the schema declares for later use.
#[derive(Debug, Clone, Copy, PartialEq, Eq, Hash)]
pub struct Attribute<'a>(pub(crate) Ident<'a>);

impl<'a> View for Attribute<'a> {
    type V = Seq<char>;

    open(crate) spec fn view(&self) -> Seq<char> {
        self.0@
    }
}

impl<'a> Attribute<'a> {
    /// The declaration of the attribute `name`.
    pub fn new(name: Ident<'a>) -> (attr: Attribute<'a>)
        ensures
            attr@ == name@,
    {
        Attribute(name)
    }

    /// The declared name.
    pub fn name(&self) -> (name: Ident<'a>)
        ensures
            name@ == self@,
    {
        self.0
    }
}

/// The declaration of the schema's root type, by the name of a table.
#[derive(Debug, Clone, Copy, PartialEq, Eq, Hash)]
pub struct Root<'a>(pub(crate) Ident<'a>);

impl<'a> View for Root<'a> {
    type V = Seq<char>;

    open(crate) spec fn view(&self) -> Seq<char> {
        self.0@
    }
}

impl<'a> Root<'a> {
    /// The declaration that `table` is the root type.
    pub fn new(table: Ident<'a>) -> (root: Root<'a>)
        ensures
            root@ == table@,
    {
        Root(table)
    }

    /// The name of the root table.
    pub fn table(&self) -> (table: Ident<'a>)
        ensures
            table@ == self@,
    {
        self.0
    }
}

/// The texts of a run of identifiers, in order.
pub open spec fn texts<'a>(ids: Seq<Ident<'a>>) -> Seq<Seq<char>> {
    Seq::new(ids.len(), |i: int| ids[i]@)
}

/// A namespace: the components of its path, outermost first. With no
/// component it is the global namespace.
#[derive(Debug, PartialEq, Eq, Hash)]
pub struct Namespace<'a>(pub(crate) Vec<Ident<'a>>);

impl<'a> View for Namespace<'a> {
    type V = Seq<Seq<char>>;

    open(crate) spec fn view(&self) -> Seq<Seq<char>> {
        texts(self.0@)
    }
}

impl<'a> Namespace<'a> {
    /// The namespace with the given components, in the given order.
    pub fn new(parts: Vec<Ident<'a>>) -> (ns: Namespace<'a>)
        ensures
            ns@ == texts(parts@),
    {
        Namespace(parts)
    }

    /// The namespace that a path names: its components are the pieces
    /// between the `::` of the path, and the empty path has none. A path with
    /// an empty piece names nothing.
    pub fn parse(path: &'a str) -> (made: Result<Namespace<'a>, BuildError>)
        ensures
            made.is_ok() <==> forall|k: int|
                0 <= k < path_parts(path@).len() ==> #[trigger] path_parts(path@)[k].len() > 0,
            made.is_ok() ==> made.unwrap()@ == path_parts(path@),
            made.is_err() ==> made == Err::<Namespace<'a>, BuildError>(BuildError::EmptyIdent),
    {
        let n: usize = path.unicode_len();
        let mut parts: Vec<Ident<'a>> = Vec::new();
        if n == 0 {
            assert(texts(parts@) =~= path_parts(path@));
            return Ok(Namespace(parts));
        }
        let mut start: usize = 0;
        let mut i: usize = 0;
        proof {
            assert(path@.subrange(0, n as int) =~= path@);
            assert(texts(parts@) + split(path@) =~= split(path@));
        }
        while i < n
            invariant
                n == path@.len(),
                n > 0,
                start <= i,
                start <= n,
                forall|j: int| start <= j < i ==> !sep_at(path@, j),
                split(path@) == texts(parts@) + split(path@.subrange(start as int, n as int)),
                forall|k: int| 0 <= k < parts@.len() ==> (#[trigger] parts@[k])@.len() > 0,
            decreases n - i,
        {
            if i + 1 < n && path.get_char(i) == ':' && path.get_char(i + 1) == ':' {
                let ghost rest = path@.subrange(start as int, n as int);
                proof {
                    assert(sep_at(path@, i as int));
                    assert forall|k: int| 0 <= k < i - start implies !sep_at(rest, k) by {
                        lemma_sep_shift(path@, start as int, k);
                    }
                    lemma_sep_shift(path@, start as int, i - start);
                    lemma_split_at(rest, i - start);
                    assert(rest.subrange(0, i - start) =~= path@.subrange(start as int, i as int));
                    assert(rest.subrange(i - start + 2, rest.len() as int) =~= path@.subrange(
                        i + 2,
                        n as int,
                    ));
                }
                let piece = path.substring_char(start, i);
                match Ident::new(piece) {
                    Ok(id) => {
                        let ghost before = parts@;
                        parts.push(id);
                        proof {
                            assert(texts(parts@) =~= texts(before) + seq![piece@]);
                            assert(texts(parts@) + split(path@.subrange(i + 2, n as int)) =~= texts(
                                before,
                            ) + (seq![piece@] + split(path@.subrange(i + 2, n as int))));
                        }
                    },
                    Err(_) => {
                        proof {
                            let at = parts@.len() as int;
                            assert(split(path@)[at] == piece@);
                            assert(path_parts(path@)[at].len() == 0);
                        }
                        return Err(BuildError::EmptyIdent);
                    },
                }
                start = i + 2;
                i = i + 2;
            } else {
                i = i + 1;
            }
        }
        let ghost rest = path@.subrange(start as int, n as int);
        proof {
            assert forall|k: int| !sep_at(rest, k) by {
                lemma_sep_shift(path@, start as int, k);
            }
            lemma_split_none(rest);
        }
        let piece = path.substring_char(start, n);
        match Ident::new(piece) {
            Ok(id) => {
                let ghost before = parts@;
                parts.push(id);
                proof {
                    assert(texts(parts@) =~= texts(before) + seq![piece@]);
                    assert(texts(parts@) == path_parts(path@));
                    assert forall|k: int| 0 <= k < path_parts(path@).len() implies #[trigger] path_parts(
                        path@,
                    )[k].len() > 0 by {
                        assert(path_parts(path@)[k] == parts@[k]@);
                    }
                }
                Ok(Namespace(parts))
            },
            Err(_) => {
                proof {
                    let at = parts@.len() as int;
                    assert(split(path@)[at] == piece@);
                    assert(path_parts(path@)[at].len() == 0);
                }
                Err(BuildError::EmptyIdent)
            },
        }
    }

    /// The components, outermost first.
    pub fn parts(&self) -> (parts: &Vec<Ident<'a>>)
        ensures
            texts(parts@) == self@,
    {
        &self.0
    }
}

impl<'a> Clone for Namespace<'a> {
    fn clone(&self) -> (copy: Namespace<'a>)
        ensures
            copy@ == self@,
    {
        let parts = self.0.clone();
        assert(texts(parts@) =~= texts(self.0@));
        Namespace(parts)
    }
}

impl<'a> Default for Namespace<'a> {
    /// The global namespace.
    fn default() -> (global: Namespace<'a>)
        ensures
            global@ == Seq::<Seq<char>>::empty(),
    {
        let parts: Vec<Ident<'a>> = Vec::new();
        assert(texts(parts@) =~= Seq::<Seq<char>>::empty());
        Namespace(parts)
    }
}

} // verus!
