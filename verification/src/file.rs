use vstd::prelude::*;

verus! {

/// Whether `piece` is a run of consecutive characters of `whole`.
pub open spec fn is_piece_of(piece: Seq<char>, whole: Seq<char>) -> bool {
    exists|from: int, to: int|
        0 <= from <= to <= whole.len() && #[trigger] whole.subrange(from, to) == piece
}

/// The file stem of a path, as `std::path::Path::file_stem` finds it on this
/// platform: the last component without its extension, or nothing where the
/// path ends in no file name. Which characters part the components is the
/// platform's matter, so all that is claimed of a stem is that it is a piece
/// of the path.
#[verifier::external_body]
fn file_stem<'a>(path: &'a str) -> (stem: Option<&'a str>)
    ensures
        stem matches Some(s) ==> is_piece_of(s@, path@),
{
    match std::path::Path::new(path).file_stem() {
        Some(stem) => stem.to_str(),
        None => None,
    }
}

/// What an import holds: the characters of its path and of its stem.
pub struct IncludeModel {
    pub path: Seq<char>,
    pub stem: Seq<char>,
}

/// An imported schema file: its path as written, and the file's stem.
#[derive(Debug, Clone, Copy, PartialEq, Eq, Hash)]
pub struct Include<'a> {
    pub(crate) path: &'a str,
    pub(crate) stem: &'a str,
}

impl<'a> View for Include<'a> {
    type V = IncludeModel;

    open(crate) spec fn view(&self) -> IncludeModel {
        IncludeModel { path: self.path@, stem: self.stem@ }
    }
}

impl<'a> Include<'a> {
    /// The import of `path`, known under `stem`.
    pub fn new(path: &'a str, stem: &'a str) -> (inc: Include<'a>)
        ensures
            inc@ == (IncludeModel { path: path@, stem: stem@ }),
    {
        Include { path, stem }
    }

    /// The import of `path` under `stem`, where there is a stem; nothing
    /// where there is none.
    pub fn with_stem(path: &'a str, stem: Option<&'a str>) -> (made: Option<Include<'a>>)
        ensures
            stem is None <==> made is None,
            stem matches Some(s) ==> made matches Some(inc) && inc@ == (IncludeModel {
                path: path@,
                stem: s@,
            }),
    {
        match stem {
            Some(s) => Some(Include::new(path, s)),
            None => None,
        }
    }

    /// The import of `path` under the stem that the path itself gives, or
    /// nothing where the path ends in no file name.
    pub fn from_path(path: &'a str) -> (made: Option<Include<'a>>)
        ensures
            made matches Some(inc) ==> inc@.path == path@ && is_piece_of(inc@.stem, path@),
    {
        Include::with_stem(path, file_stem(path))
    }

    /// The path as written.
    pub fn path(&self) -> (path: &'a str)
        ensures
            path@ == self@.path,
    {
        self.path
    }

    /// The file's stem.
    pub fn stem(&self) -> (stem: &'a str)
        ensures
            stem@ == self@.stem,
    {
        self.stem
    }
}

/// The extension that files of this schema's data carry.
#[derive(Debug, Clone, Copy, PartialEq, Eq, Hash)]
pub struct FileExtension<'a>(pub(crate) &'a str);

impl<'a> View for FileExtension<'a> {
    type V = Seq<char>;

    open(crate) spec fn view(&self) -> Seq<char> {
        self.0@
    }
}

impl<'a> FileExtension<'a> {
    /// The extension, as written.
    pub fn new(text: &'a str) -> (ext: FileExtension<'a>)
        ensures
            ext@ == text@,
    {
        FileExtension(text)
    }

    /// The extension's text.
    pub fn as_str(&self) -> (text: &'a str)
        ensures
            text@ == self@,
    {
        self.0
    }
}

/// The identifier that files of this schema's data start with.
#[derive(Debug, Clone, Copy, PartialEq, Eq, Hash)]
pub struct FileIdentifier<'a>(pub(crate) &'a str);

impl<'a> View for FileIdentifier<'a> {
    type V = Seq<char>;

    open(crate) spec fn view(&self) -> Seq<char> {
        self.0@
    }
}

impl<'a> FileIdentifier<'a> {
    /// The identifier, as written.
    pub fn new(text: &'a str) -> (id: FileIdentifier<'a>)
        ensures
            id@ == text@,
    {
        FileIdentifier(text)
    }

    /// The identifier's text.
    pub fn as_str(&self) -> (text: &'a str)
        ensures
            text@ == self@,
    {
        self.0
    }
}

} // verus!
