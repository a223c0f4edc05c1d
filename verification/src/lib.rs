//! Type-directed cross-language bridge generation.
//!
//! Given structural type declarations (named-field structs, anonymous tuple
//! structs, and tagged-union enums), this library synthesizes the coordinated
//! text artifacts needed to move values of those types across a
//! foreign-function boundary: a native definition, an ABI-safe definition with
//! a stable prefixed symbol, and client-side conversion glue.

use vstd::prelude::*;

pub mod enum_codegen;
pub mod fields;
pub mod naming;
pub mod reflect;
pub mod semantics;
pub mod shared_enum;
pub mod shared_struct;
pub mod struct_codegen;
pub mod tuple_codegen;
pub mod text;
pub mod tokens;
pub mod ty;

verus! {

/// The reason a generation request was rejected.  All failures are
/// build-time: nothing is partially emitted.
#[derive(Clone, Copy, Debug, PartialEq, Eq, Structural)]
pub enum BridgeError {
    /// The declaration uses a field shape that is not implemented
    /// (named-field tuples, named-field enum variants).
    UnsupportedShape,
    /// A field's declared type could not be found in the registry.
    UnresolvedType,
}

} // verus!
