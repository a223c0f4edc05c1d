//! Token-stream output through `proc_macro2`.
//!
//! The engines compute symbol text under exact contracts; these entry
//! points hand that text to `proc_macro2` so a caller that splices token
//! streams can consume it directly.  A token stream is opaque here: what
//! each stream renders to is pinned by the `_string` sibling of each
//! function, whose contract states the exact text.

use vstd::prelude::*;

use crate::BridgeError;
use crate::ty::TypeDeclarations;
use crate::shared_struct::SharedStruct;
use crate::shared_struct::spec_name_ok;
use crate::shared_struct::spec_name_err;

verus! {

#[verifier::external_type_specification]
#[verifier::external_body]
pub struct ExTokenStream(proc_macro2::TokenStream);

#[verifier::external_type_specification]
#[verifier::external_body]
pub struct ExLexError(proc_macro2::LexError);

/// Relies on str::parse through proc_macro2's FromStr impl for
/// TokenStream: the text is broken into tokens, or a lexing error is
/// returned for text that is not valid token syntax.
#[verifier::external_body]
fn parse_tokens(s: &str) -> Result<proc_macro2::TokenStream, proc_macro2::LexError> {
    s.parse::<proc_macro2::TokenStream>()
}

impl SharedStruct {
    /// The ABI type identifier as a token stream; `None` when the glued
    /// prefix and name do not lex.  The rendered text equals
    /// `ffi_ident_string`.
    pub fn ffi_name_tokens(&self, prefix: &str) -> (r: Option<proc_macro2::TokenStream>) {
        let name = self.ffi_ident_string(prefix);
        match parse_tokens(name.as_str()) {
            Ok(ts) => Some(ts),
            Err(_) => None,
        }
    }

    /// The optional-wrapper type identifier as a token stream; `None` when
    /// it does not lex.  The rendered text equals
    /// `ffi_option_ident_string`.
    pub fn ffi_option_name_tokens(&self, prefix: &str) -> (r: Option<proc_macro2::TokenStream>) {
        let name = self.ffi_option_ident_string(prefix);
        match parse_tokens(name.as_str()) {
            Ok(ts) => Some(ts),
            Err(_) => None,
        }
    }

    /// The disambiguated ABI type name as a token stream — the prefixed
    /// identifier, or the qualified reference for an already-declared type.
    /// `Ok(None)` when the computed text does not lex; the rendered text
    /// equals `generate_prefixed_type_name_string`.
    pub fn generate_prefixed_type_name_tokens(
        &self,
        prefix: &str,
        path: &str,
        types: &TypeDeclarations,
    ) -> (r: Result<Option<proc_macro2::TokenStream>, BridgeError>)
        ensures
            r is Ok ==> spec_name_ok(*self, *types),
            r matches Err(e) ==> !spec_name_ok(*self, *types) && e == spec_name_err(
                *self,
                *types,
            ),
    {
        let text = self.generate_prefixed_type_name_string(prefix, path, types)?;
        match parse_tokens(text.as_str()) {
            Ok(ts) => Ok(Some(ts)),
            Err(_) => Ok(None),
        }
    }
}

} // verus!
