//! The value model of a parsed schema of a binary serialization format's
//! interface definition language: names and namespaces, literal values,
//! the declarations (tables, structs, enums, unions, RPC services) and the
//! schema that holds them, together with the constructors that put them
//! together. Every type has a view, a plain mathematical value that says what
//! it holds, and every constructor says in its contract what it builds.

pub mod assoc;
pub mod compose;
pub mod enums;
pub mod error;
pub mod field;
pub mod file;
pub mod ident;
pub mod laws;
pub mod metadata;
pub mod path;
pub mod product;
pub mod rpc;
pub mod schema;
pub mod text;
pub mod ty;
pub mod value;
