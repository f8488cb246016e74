use vstd::prelude::*;

verus! {

/// Why a construction was rejected.
#[derive(Debug, Clone, Copy, PartialEq, Eq, Structural)]
pub enum BuildError {
    /// A name token with no characters.
    EmptyIdent,
    /// A table or struct declared with no fields.
    EmptyFields,
    /// An RPC service declared with no methods.
    EmptyMethods,
    /// An include path that ends in no file name.
    NoFileStem,
}

} // verus!
