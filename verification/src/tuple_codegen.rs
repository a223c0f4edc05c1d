//! Tuple synthesis and the type-level conversion entry points.
//!
//! A tuple is structural: every artifact about it — the ABI struct name, the
//! client constructor, the interface-declaration typedef — embeds the mangled
//! encoding of its ordered field-type sequence, so identical shapes always
//! produce the identical symbol and distinct shapes never collide.

use vstd::prelude::*;

use crate::BridgeError;
use crate::fields::NormField;
use crate::fields::spec_normalized;
use crate::fields::spec_fields_resolve;
use crate::fields::spec_accessor;
use crate::fields::field_accessor;
use crate::text::spec_dec;
use crate::text::spec_join;
use crate::text::views_of;
use crate::text::dec_string;
use crate::text::join_strings;
use crate::ty::TypeDeclarations;
use crate::ty::spec_resolves;
use crate::ty::spec_ffi_rust_type;
use crate::ty::spec_c_type;
use crate::ty::spec_swift_to_ffi;
use crate::ty::spec_ffi_to_swift;
use crate::ty::ffi_rust_type;
use crate::ty::c_type;
use crate::ty::swift_to_ffi;
use crate::ty::ffi_to_swift;
use crate::shared_struct::SharedStruct;
use crate::shared_struct::spec_name_ok;
use crate::shared_struct::spec_name_err;
use crate::shared_struct::spec_mangled;
use crate::shared_struct::spec_swift_name_string;
use crate::shared_struct::spec_only_encoding_applies;

verus! {

/// The disambiguated native-side identifier of this struct's ABI type: for a
/// tuple the synthesized name carries the field-type mangle.
pub open spec fn spec_type_ident(s: SharedStruct) -> Seq<char> {
    if s.is_tuple {
        s.name@ + "_"@ + spec_mangled(spec_normalized(s.fields))
    } else {
        s.name@
    }
}

/// The prefixed ABI type name, or — when the type is declared in another
/// module — the qualified reference to that module's own ABI representation.
pub open spec fn spec_generate_prefixed_type_name(
    s: SharedStruct,
    prefix: Seq<char>,
    path: Seq<char>,
) -> Seq<char> {
    if s.already_declared {
        "<super::"@ + spec_type_ident(s) + " as "@ + path + "::SharedStruct>::FfiRepr"@
    } else {
        prefix + spec_type_ident(s)
    }
}

/// One positional projection of `value`.
pub open spec fn spec_frag_access(nf: NormField, value: Seq<char>) -> Seq<char> {
    value + spec_accessor(nf)
}

/// One ABI field of the client-to-ABI tuple constructor call.
pub open spec fn spec_frag_tuple_swift_to_ffi(nf: NormField, expression: Seq<char>) -> Seq<
    char,
> {
    "_"@ + spec_dec(nf.idx as nat) + ": "@ + spec_swift_to_ffi(
        nf.ty,
        expression + "."@ + spec_dec(nf.idx as nat),
    )
}

/// One element of the ABI-to-client tuple literal.
pub open spec fn spec_frag_tuple_ffi_to_swift(nf: NormField) -> Seq<char> {
    spec_ffi_to_swift(nf.ty, "val._"@ + spec_dec(nf.idx as nat))
}

/// One member of the C interface declaration.
pub open spec fn spec_frag_c_field(
    nf: NormField,
    prefix: Seq<char>,
    types: TypeDeclarations,
) -> Seq<char> {
    spec_c_type(nf.ty, prefix, types) + " _"@ + spec_dec(nf.idx as nat)
}

/// The ABI-to-native conversion at a type position: a positional rebuild for
/// tuples, a delegation to the type's own conversion otherwise.
pub open spec fn spec_convert_ffi_expression_to_rust_type(
    s: SharedStruct,
    value: Seq<char>,
) -> Seq<char> {
    if s.is_tuple {
        "("@ + spec_join(
            spec_normalized(s.fields).map_values(|nf: NormField| spec_frag_access(nf, value)),
            ", "@,
        ) + ")"@
    } else {
        value + ".into_rust_repr()"@
    }
}

/// The native-to-ABI conversion at a type position: evaluate-and-discard for
/// an only-encoding type, a positional ABI constructor call for tuples, a
/// delegation otherwise.
pub open spec fn spec_convert_rust_expression_to_ffi_type(
    s: SharedStruct,
    expression: Seq<char>,
    prefix: Seq<char>,
) -> Seq<char> {
    if spec_only_encoding_applies(s) {
        "{ "@ + expression + "; }"@
    } else if s.is_tuple {
        "let val = "@ + expression + "; "@ + prefix + spec_type_ident(s) + "("@ + spec_join(
            spec_normalized(s.fields).map_values(|nf: NormField| spec_frag_access(nf, "val"@)),
            ", "@,
        ) + ")"@
    } else {
        expression + ".into_ffi_repr()"@
    }
}

/// The ABI-to-client conversion at a type position.
pub open spec fn spec_convert_ffi_expression_to_swift_type(
    s: SharedStruct,
    expression: Seq<char>,
    types: TypeDeclarations,
) -> Seq<char> {
    if spec_only_encoding_applies(s) {
        "{ let _ = "@ + expression + "; return "@ + spec_swift_name_string(s, types) + "()"@
            + " }()"@
    } else if s.is_tuple {
        "let val = "@ + expression + "; return ("@ + spec_join(
            spec_normalized(s.fields).map_values(|nf: NormField| spec_frag_tuple_ffi_to_swift(nf)),
            ", "@,
        ) + ");"@
    } else {
        expression + ".intoSwiftRepr()"@
    }
}

/// The client-to-ABI conversion at a type position.  The tuple case is
/// checked first: a tuple always crosses through its mangled ABI
/// constructor.
pub open spec fn spec_convert_swift_expression_to_ffi_type(
    s: SharedStruct,
    expression: Seq<char>,
    prefix: Seq<char>,
    types: TypeDeclarations,
) -> Seq<char> {
    if s.is_tuple {
        prefix + "$"@ + s.name@ + "$"@ + spec_mangled(spec_normalized(s.fields)) + "("@
            + spec_join(
            spec_normalized(s.fields).map_values(
                |nf: NormField| spec_frag_tuple_swift_to_ffi(nf, expression),
            ),
            ", "@,
        ) + ")"@
    } else if spec_only_encoding_applies(s) {
        "{ let _ = "@ + expression + "; }()"@
    } else {
        expression + ".intoFfiRepr()"@
    }
}

/// The ABI struct definition emitted for a tuple shape.
pub open spec fn spec_custom_rust_ffi_type(
    s: SharedStruct,
    prefix: Seq<char>,
    path: Seq<char>,
    types: TypeDeclarations,
) -> Seq<char> {
    "#[repr(C)] #[doc(hidden)] pub struct "@ + prefix + spec_type_ident(s) + "("@ + spec_join(
        spec_normalized(s.fields).map_values(
            |nf: NormField| spec_ffi_rust_type(nf.ty, prefix, path, types),
        ),
        ", "@,
    ) + ");"@
}

/// The toolchain-neutral C interface declaration emitted for a tuple shape.
pub open spec fn spec_custom_c_ffi_type(
    s: SharedStruct,
    prefix: Seq<char>,
    types: TypeDeclarations,
) -> Seq<char> {
    let sym = prefix + "$"@ + s.name@ + "$"@ + spec_mangled(spec_normalized(s.fields));
    let flds = spec_join(
        spec_normalized(s.fields).map_values(|nf: NormField| spec_frag_c_field(nf, prefix, types)),
        "; "@,
    ) + ";"@;
    "typedef struct "@ + sym + " { "@ + flds + " } "@ + sym + ";"@
}

/// An already-declared type is only ever referenced: the emitted text is the
/// qualified alias to the external type's own ABI representation, for every
/// declaration, so no new prefixed definition symbol is introduced here.
/// (The executable function reports the usual build error instead of any
/// text when a tuple's field types do not resolve.)
pub proof fn lemma_already_declared_alias(s: SharedStruct, prefix: Seq<char>, path: Seq<char>)
    requires
        s.already_declared,
    ensures
        spec_generate_prefixed_type_name(s, prefix, path) == "<super::"@ + spec_type_ident(s)
            + " as "@ + path + "::SharedStruct>::FfiRepr"@,
{
}

impl SharedStruct {
    /// The positional projections of `value`, one per field.
    fn frags_access(nfs: &Vec<NormField>, value: &str) -> (r: Vec<String>)
        ensures
            views_of(r@) == nfs@.map_values(|nf: NormField| spec_frag_access(nf, value@)),
    {
        let mut parts: Vec<String> = Vec::new();
        let mut i: usize = 0;
        while i < nfs.len()
            invariant
                i <= nfs.len(),
                views_of(parts@) =~= nfs@.take(i as int).map_values(
                    |nf: NormField| spec_frag_access(nf, value@),
                ),
            decreases nfs.len() - i,
        {
            let frag = field_accessor(&nfs[i], value);
            let ghost prev = parts@;
            parts.push(frag);
            proof {
                assert(views_of(prev).len() == i as int);
                assert(prev.len() == i as int);
                assert(views_of(parts@) =~= views_of(prev).push(parts@[i as int]@));
                assert(nfs@.take(i + 1).map_values(
                    |nf: NormField| spec_frag_access(nf, value@),
                ) =~= nfs@.take(i as int).map_values(
                    |nf: NormField| spec_frag_access(nf, value@),
                ).push(spec_frag_access(nfs@[i as int], value@)));
            }
            i = i + 1;
        }
        proof {
            assert(nfs@.take(nfs@.len() as int) =~= nfs@);
        }
        parts
    }

    /// The ABI type tokens of the fields, for the tuple's ABI definition.
    fn frags_ffi_rust_type(
        nfs: &Vec<NormField>,
        prefix: &str,
        path: &str,
        types: &TypeDeclarations,
    ) -> (r: Result<Vec<String>, BridgeError>)
        ensures
            match r {
                Ok(v) => spec_fields_resolve(nfs@, *types) && views_of(v@) == nfs@.map_values(
                    |nf: NormField| spec_ffi_rust_type(nf.ty, prefix@, path@, *types),
                ),
                Err(e) => !spec_fields_resolve(nfs@, *types) && e == BridgeError::UnresolvedType,
            },
    {
        let mut parts: Vec<String> = Vec::new();
        let mut i: usize = 0;
        while i < nfs.len()
            invariant
                i <= nfs.len(),
                views_of(parts@) =~= nfs@.take(i as int).map_values(
                    |nf: NormField| spec_ffi_rust_type(nf.ty, prefix@, path@, *types),
                ),
                forall|j: int| 0 <= j < i ==> spec_resolves(#[trigger] nfs@[j].ty, *types),
            decreases nfs.len() - i,
        {
            let frag = ffi_rust_type(&nfs[i].ty, prefix, path, types)?;
            let ghost prev = parts@;
            parts.push(frag);
            proof {
                assert(views_of(prev).len() == i as int);
                assert(prev.len() == i as int);
                assert(views_of(parts@) =~= views_of(prev).push(parts@[i as int]@));
                assert(nfs@.take(i + 1).map_values(
                    |nf: NormField| spec_ffi_rust_type(nf.ty, prefix@, path@, *types),
                ) =~= nfs@.take(i as int).map_values(
                    |nf: NormField| spec_ffi_rust_type(nf.ty, prefix@, path@, *types),
                ).push(spec_ffi_rust_type(nfs@[i as int].ty, prefix@, path@, *types)));
            }
            i = i + 1;
        }
        proof {
            assert(nfs@.take(nfs@.len() as int) =~= nfs@);
        }
        Ok(parts)
    }

    /// The elements of the ABI-to-client tuple literal.
    fn frags_tuple_ffi_to_swift(nfs: &Vec<NormField>, types: &TypeDeclarations) -> (r: Result<
        Vec<String>,
        BridgeError,
    >)
        ensures
            match r {
                Ok(v) => spec_fields_resolve(nfs@, *types) && views_of(v@) == nfs@.map_values(
                    |nf: NormField| spec_frag_tuple_ffi_to_swift(nf),
                ),
                Err(e) => !spec_fields_resolve(nfs@, *types) && e == BridgeError::UnresolvedType,
            },
    {
        let mut parts: Vec<String> = Vec::new();
        let mut i: usize = 0;
        while i < nfs.len()
            invariant
                i <= nfs.len(),
                views_of(parts@) =~= nfs@.take(i as int).map_values(
                    |nf: NormField| spec_frag_tuple_ffi_to_swift(nf),
                ),
                forall|j: int| 0 <= j < i ==> spec_resolves(#[trigger] nfs@[j].ty, *types),
            decreases nfs.len() - i,
        {
            let idx = dec_string(nfs[i].idx);
            let mut access = String::from_str("val._");
            access.append(idx.as_str());
            let frag = ffi_to_swift(&nfs[i].ty, access.as_str(), types)?;
            proof {
                assert(frag@ =~= spec_frag_tuple_ffi_to_swift(nfs@[i as int]));
            }
            let ghost prev = parts@;
            parts.push(frag);
            proof {
                assert(views_of(prev).len() == i as int);
                assert(prev.len() == i as int);
                assert(views_of(parts@) =~= views_of(prev).push(parts@[i as int]@));
                assert(nfs@.take(i + 1).map_values(
                    |nf: NormField| spec_frag_tuple_ffi_to_swift(nf),
                ) =~= nfs@.take(i as int).map_values(
                    |nf: NormField| spec_frag_tuple_ffi_to_swift(nf),
                ).push(spec_frag_tuple_ffi_to_swift(nfs@[i as int])));
            }
            i = i + 1;
        }
        proof {
            assert(nfs@.take(nfs@.len() as int) =~= nfs@);
        }
        Ok(parts)
    }

    /// The named arguments of the client-to-ABI tuple constructor call.
    fn frags_tuple_swift_to_ffi(
        nfs: &Vec<NormField>,
        expression: &str,
        types: &TypeDeclarations,
    ) -> (r: Result<Vec<String>, BridgeError>)
        ensures
            match r {
                Ok(v) => spec_fields_resolve(nfs@, *types) && views_of(v@) == nfs@.map_values(
                    |nf: NormField| spec_frag_tuple_swift_to_ffi(nf, expression@),
                ),
                Err(e) => !spec_fields_resolve(nfs@, *types) && e == BridgeError::UnresolvedType,
            },
    {
        let mut parts: Vec<String> = Vec::new();
        let mut i: usize = 0;
        while i < nfs.len()
            invariant
                i <= nfs.len(),
                views_of(parts@) =~= nfs@.take(i as int).map_values(
                    |nf: NormField| spec_frag_tuple_swift_to_ffi(nf, expression@),
                ),
                forall|j: int| 0 <= j < i ==> spec_resolves(#[trigger] nfs@[j].ty, *types),
            decreases nfs.len() - i,
        {
            let idx = dec_string(nfs[i].idx);
            let mut access = String::from_str(expression);
            access.append(".");
            access.append(idx.as_str());
            let conv = swift_to_ffi(&nfs[i].ty, access.as_str(), types)?;
            let mut frag = String::from_str("_");
            frag.append(idx.as_str());
            frag.append(": ");
            frag.append(conv.as_str());
            proof {
                assert(frag@ =~= spec_frag_tuple_swift_to_ffi(nfs@[i as int], expression@));
            }
            let ghost prev = parts@;
            parts.push(frag);
            proof {
                assert(views_of(prev).len() == i as int);
                assert(prev.len() == i as int);
                assert(views_of(parts@) =~= views_of(prev).push(parts@[i as int]@));
                assert(nfs@.take(i + 1).map_values(
                    |nf: NormField| spec_frag_tuple_swift_to_ffi(nf, expression@),
                ) =~= nfs@.take(i as int).map_values(
                    |nf: NormField| spec_frag_tuple_swift_to_ffi(nf, expression@),
                ).push(spec_frag_tuple_swift_to_ffi(nfs@[i as int], expression@)));
            }
            i = i + 1;
        }
        proof {
            assert(nfs@.take(nfs@.len() as int) =~= nfs@);
        }
        Ok(parts)
    }

    /// The members of the C interface declaration.
    fn frags_c_field(nfs: &Vec<NormField>, prefix: &str, types: &TypeDeclarations) -> (r: Result<
        Vec<String>,
        BridgeError,
    >)
        ensures
            match r {
                Ok(v) => spec_fields_resolve(nfs@, *types) && views_of(v@) == nfs@.map_values(
                    |nf: NormField| spec_frag_c_field(nf, prefix@, *types),
                ),
                Err(e) => !spec_fields_resolve(nfs@, *types) && e == BridgeError::UnresolvedType,
            },
    {
        let mut parts: Vec<String> = Vec::new();
        let mut i: usize = 0;
        while i < nfs.len()
            invariant
                i <= nfs.len(),
                views_of(parts@) =~= nfs@.take(i as int).map_values(
                    |nf: NormField| spec_frag_c_field(nf, prefix@, *types),
                ),
                forall|j: int| 0 <= j < i ==> spec_resolves(#[trigger] nfs@[j].ty, *types),
            decreases nfs.len() - i,
        {
            let idx = dec_string(nfs[i].idx);
            let mut frag = c_type(&nfs[i].ty, prefix, types)?;
            frag.append(" _");
            frag.append(idx.as_str());
            proof {
                assert(frag@ =~= spec_frag_c_field(nfs@[i as int], prefix@, *types));
            }
            let ghost prev = parts@;
            parts.push(frag);
            proof {
                assert(views_of(prev).len() == i as int);
                assert(prev.len() == i as int);
                assert(views_of(parts@) =~= views_of(prev).push(parts@[i as int]@));
                assert(nfs@.take(i + 1).map_values(
                    |nf: NormField| spec_frag_c_field(nf, prefix@, *types),
                ) =~= nfs@.take(i as int).map_values(
                    |nf: NormField| spec_frag_c_field(nf, prefix@, *types),
                ).push(spec_frag_c_field(nfs@[i as int], prefix@, *types)));
            }
            i = i + 1;
        }
        proof {
            assert(nfs@.take(nfs@.len() as int) =~= nfs@);
        }
        Ok(parts)
    }

    /// The disambiguated ABI type identifier: prefixed when the type is
    /// declared here, a qualified reference when it is declared elsewhere.
    pub fn generate_prefixed_type_name_string(
        &self,
        prefix: &str,
        path: &str,
        types: &TypeDeclarations,
    ) -> (r: Result<String, BridgeError>)
        ensures
            match r {
                Ok(s) => spec_name_ok(*self, *types) && s@ == spec_generate_prefixed_type_name(
                    *self,
                    prefix@,
                    path@,
                ),
                Err(e) => !spec_name_ok(*self, *types) && e == spec_name_err(*self, *types),
            },
    {
        let mut ty_name: String;
        if self.is_tuple {
            let mangled = self.combine_field_types_string(types)?;
            ty_name = self.name.clone();
            ty_name.append("_");
            ty_name.append(mangled.as_str());
        } else {
            ty_name = self.name.clone();
        }
        proof {
            assert(ty_name@ =~= spec_type_ident(*self));
        }
        if self.already_declared {
            let mut s = String::from_str("<super::");
            s.append(ty_name.as_str());
            s.append(" as ");
            s.append(path);
            s.append("::SharedStruct>::FfiRepr");
            proof {
                assert(s@ =~= spec_generate_prefixed_type_name(*self, prefix@, path@));
            }
            Ok(s)
        } else {
            let mut s = String::from_str(prefix);
            s.append(ty_name.as_str());
            proof {
                assert(s@ =~= spec_generate_prefixed_type_name(*self, prefix@, path@));
            }
            Ok(s)
        }
    }

    /// The ABI-to-native conversion at a type position: tuples rebuild the
    /// native tuple positionally, anything else delegates to the type's own
    /// generated conversion.
    pub fn convert_ffi_expression_to_rust_type(&self, value: &str) -> (r: String)
        ensures
            r@ == spec_convert_ffi_expression_to_rust_type(*self, value@),
    {
        if self.is_tuple {
            let nfs = self.fields.normalized_fields();
            let parts = Self::frags_access(&nfs, value);
            let joined = join_strings(&parts, ", ");
            let mut s = String::from_str("(");
            s.append(joined.as_str());
            s.append(")");
            proof {
                assert(s@ =~= spec_convert_ffi_expression_to_rust_type(*self, value@));
            }
            s
        } else {
            let mut s = String::from_str(value);
            s.append(".into_rust_repr()");
            proof {
                assert(s@ =~= spec_convert_ffi_expression_to_rust_type(*self, value@));
            }
            s
        }
    }

    /// The native-to-ABI conversion at a type position: evaluate-and-discard
    /// for an only-encoding type, the mangled ABI constructor for tuples, a
    /// delegation otherwise.
    pub fn convert_rust_expression_to_ffi_type(
        &self,
        expression: &str,
        prefix: &str,
        types: &TypeDeclarations,
    ) -> (r: Result<String, BridgeError>)
        ensures
            match r {
                Ok(s) => spec_name_ok(*self, *types) && s@
                    == spec_convert_rust_expression_to_ffi_type(*self, expression@, prefix@),
                Err(e) => !spec_name_ok(*self, *types) && e == spec_name_err(*self, *types),
            },
    {
        let only = self.only_encoding(types)?;
        if let Some(_only) = only {
            let mut s = String::from_str("{ ");
            s.append(expression);
            s.append("; }");
            proof {
                assert(s@ =~= spec_convert_rust_expression_to_ffi_type(
                    *self,
                    expression@,
                    prefix@,
                ));
            }
            return Ok(s);
        }
        if self.is_tuple {
            let mangled = self.combine_field_types_string(types)?;
            let nfs = self.fields.normalized_fields();
            let parts = Self::frags_access(&nfs, "val");
            let joined = join_strings(&parts, ", ");
            let mut s = String::from_str("let val = ");
            s.append(expression);
            s.append("; ");
            s.append(prefix);
            s.append(self.name.as_str());
            s.append("_");
            s.append(mangled.as_str());
            s.append("(");
            s.append(joined.as_str());
            s.append(")");
            proof {
                assert(s@ =~= spec_convert_rust_expression_to_ffi_type(
                    *self,
                    expression@,
                    prefix@,
                ));
            }
            return Ok(s);
        }
        let mut s = String::from_str(expression);
        s.append(".into_ffi_repr()");
        proof {
            assert(s@ =~= spec_convert_rust_expression_to_ffi_type(*self, expression@, prefix@));
        }
        Ok(s)
    }

    /// The ABI struct definition for a tuple shape, emitted in positional
    /// form; `None` for any other struct (whose ABI definition is produced
    /// with the struct itself).
    pub fn generate_custom_rust_ffi_type(
        &self,
        prefix: &str,
        path: &str,
        types: &TypeDeclarations,
    ) -> (r: Result<Option<String>, BridgeError>)
        ensures
            match r {
                Ok(out) => spec_name_ok(*self, *types) && (match out {
                    Some(s) => self.is_tuple && s@ == spec_custom_rust_ffi_type(
                        *self,
                        prefix@,
                        path@,
                        *types,
                    ),
                    None => !self.is_tuple,
                }),
                Err(e) => !spec_name_ok(*self, *types) && e == spec_name_err(*self, *types),
            },
    {
        if !self.is_tuple {
            return Ok(None);
        }
        let mangled = self.combine_field_types_string(types)?;
        let nfs = self.fields.normalized_fields();
        let parts = Self::frags_ffi_rust_type(&nfs, prefix, path, types)?;
        let joined = join_strings(&parts, ", ");
        let mut s = String::from_str("#[repr(C)] #[doc(hidden)] pub struct ");
        s.append(prefix);
        s.append(self.name.as_str());
        s.append("_");
        s.append(mangled.as_str());
        s.append("(");
        s.append(joined.as_str());
        s.append(");");
        proof {
            assert(s@ =~= spec_custom_rust_ffi_type(*self, prefix@, path@, *types));
        }
        Ok(Some(s))
    }

    /// The ABI-to-client conversion at a type position.
    pub fn convert_ffi_expression_to_swift_type(
        &self,
        expression: &str,
        types: &TypeDeclarations,
    ) -> (r: Result<String, BridgeError>)
        ensures
            match r {
                Ok(s) => spec_name_ok(*self, *types) && s@
                    == spec_convert_ffi_expression_to_swift_type(*self, expression@, *types),
                Err(e) => !spec_name_ok(*self, *types) && e == spec_name_err(*self, *types),
            },
    {
        let only = self.only_encoding(types)?;
        if let Some(only) = only {
            let mut s = String::from_str("{ let _ = ");
            s.append(expression);
            s.append("; return ");
            s.append(only.swift.as_str());
            s.append(" }()");
            proof {
                assert(s@ =~= spec_convert_ffi_expression_to_swift_type(
                    *self,
                    expression@,
                    *types,
                ));
            }
            return Ok(s);
        }
        if self.is_tuple {
            match &self.fields {
                crate::fields::StructFields::Unnamed(_) => {},
                _ => {
                    return Err(BridgeError::UnsupportedShape);
                },
            }
            let nfs = self.fields.normalized_fields();
            let parts = Self::frags_tuple_ffi_to_swift(&nfs, types)?;
            let joined = join_strings(&parts, ", ");
            let mut s = String::from_str("let val = ");
            s.append(expression);
            s.append("; return (");
            s.append(joined.as_str());
            s.append(");");
            proof {
                assert(s@ =~= spec_convert_ffi_expression_to_swift_type(
                    *self,
                    expression@,
                    *types,
                ));
            }
            return Ok(s);
        }
        let mut s = String::from_str(expression);
        s.append(".intoSwiftRepr()");
        proof {
            assert(s@ =~= spec_convert_ffi_expression_to_swift_type(*self, expression@, *types));
        }
        Ok(s)
    }

    /// The client-to-ABI conversion at a type position.
    pub fn convert_swift_expression_to_ffi_type(
        &self,
        expression: &str,
        prefix: &str,
        types: &TypeDeclarations,
    ) -> (r: Result<String, BridgeError>)
        ensures
            match r {
                Ok(s) => spec_name_ok(*self, *types) && s@
                    == spec_convert_swift_expression_to_ffi_type(
                    *self,
                    expression@,
                    prefix@,
                    *types,
                ),
                Err(e) => !spec_name_ok(*self, *types) && e == spec_name_err(*self, *types),
            },
    {
        if self.is_tuple {
            let mangled = self.combine_field_types_string(types)?;
            let nfs = self.fields.normalized_fields();
            let parts = Self::frags_tuple_swift_to_ffi(&nfs, expression, types)?;
            let joined = join_strings(&parts, ", ");
            let mut s = String::from_str(prefix);
            s.append("$");
            s.append(self.name.as_str());
            s.append("$");
            s.append(mangled.as_str());
            s.append("(");
            s.append(joined.as_str());
            s.append(")");
            proof {
                assert(s@ =~= spec_convert_swift_expression_to_ffi_type(
                    *self,
                    expression@,
                    prefix@,
                    *types,
                ));
            }
            return Ok(s);
        }
        let only = self.only_encoding(types)?;
        if let Some(_only) = only {
            let mut s = String::from_str("{ let _ = ");
            s.append(expression);
            s.append("; }()");
            proof {
                assert(s@ =~= spec_convert_swift_expression_to_ffi_type(
                    *self,
                    expression@,
                    prefix@,
                    *types,
                ));
            }
            return Ok(s);
        }
        let mut s = String::from_str(expression);
        s.append(".intoFfiRepr()");
        proof {
            assert(s@ =~= spec_convert_swift_expression_to_ffi_type(
                *self,
                expression@,
                prefix@,
                *types,
            ));
        }
        Ok(s)
    }

    /// The C interface declaration for a tuple shape: a positional record
    /// typedef with generated member names and each field's ABI-level
    /// encoding; `None` for any other struct.
    pub fn generate_custom_c_ffi_type(&self, prefix: &str, types: &TypeDeclarations) -> (r: Result<
        Option<String>,
        BridgeError,
    >)
        ensures
            match r {
                Ok(out) => spec_name_ok(*self, *types) && (match out {
                    Some(s) => self.is_tuple && s@ == spec_custom_c_ffi_type(
                        *self,
                        prefix@,
                        *types,
                    ),
                    None => !self.is_tuple,
                }),
                Err(e) => !spec_name_ok(*self, *types) && e == spec_name_err(*self, *types),
            },
    {
        if !self.is_tuple {
            return Ok(None);
        }
        let mangled = self.combine_field_types_string(types)?;
        let nfs = self.fields.normalized_fields();
        let parts = Self::frags_c_field(&nfs, prefix, types)?;
        let mut flds = join_strings(&parts, "; ");
        flds.append(";");
        let mut sym = String::from_str(prefix);
        sym.append("$");
        sym.append(self.name.as_str());
        sym.append("$");
        sym.append(mangled.as_str());
        let mut s = String::from_str("typedef struct ");
        s.append(sym.as_str());
        s.append(" { ");
        s.append(flds.as_str());
        s.append(" } ");
        s.append(sym.as_str());
        s.append(";");
        proof {
            assert(s@ =~= spec_custom_c_ffi_type(*self, prefix@, *types));
        }
        Ok(Some(s))
    }
}

} // verus!
