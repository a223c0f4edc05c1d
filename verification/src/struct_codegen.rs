//! The struct engine's conversion and definition synthesis.
//!
//! Every generator binds the source expression once to a temporary (so an
//! expression with side effects is never re-evaluated), projects each field
//! through its own type's conversion in declaration order, and assembles the
//! result in the shape matching the declaration.  A zero-field struct gets a
//! single placeholder field, because a C-compatible record cannot have zero
//! size; crossing the boundary with an only-encoding type evaluates the
//! source and discards it.

use vstd::prelude::*;

use crate::BridgeError;
use crate::fields::NormField;
use crate::fields::StructFields;
use crate::fields::spec_normalized;
use crate::fields::spec_fields_resolve;
use crate::fields::spec_maybe_name_colon;
use crate::fields::spec_accessor;
use crate::fields::spec_ffi_field_name;
use crate::fields::maybe_name_colon;
use crate::fields::field_accessor;
use crate::fields::ffi_field_name;
use crate::text::spec_join;
use crate::text::views_of;
use crate::text::join_strings;
use crate::ty::TypeDeclarations;
use crate::ty::spec_resolves;
use crate::ty::spec_rust_to_ffi;
use crate::ty::spec_ffi_to_rust;
use crate::ty::spec_swift_to_ffi;
use crate::ty::spec_ffi_to_swift;
use crate::ty::rust_to_ffi;
use crate::ty::ffi_to_rust;
use crate::ty::swift_to_ffi;
use crate::ty::ffi_to_swift;
use crate::shared_struct::SharedStruct;
use crate::shared_struct::spec_name_ok;
use crate::shared_struct::spec_swift_name_string;
use crate::shared_struct::spec_ffi_name_string;

verus! {

/// The constructor tail in the declared shape: a brace list for named
/// fields, a positional list for unnamed ones, nothing for a unit shape.
pub open spec fn spec_wrap_fields(fields: StructFields, parts: Seq<Seq<char>>) -> Seq<char> {
    match fields {
        StructFields::Named(_) => if parts.len() == 0 {
            " {}"@
        } else {
            " { "@ + spec_join(parts, ", "@) + " }"@
        },
        StructFields::Unnamed(_) => "("@ + spec_join(parts, ", "@) + ")"@,
        StructFields::Unit => Seq::<char>::empty(),
    }
}

/// One field of the ABI value projected back to its native form.
pub open spec fn spec_frag_ffi_to_rust(nf: NormField, path: Seq<char>) -> Seq<char> {
    spec_maybe_name_colon(nf) + spec_ffi_to_rust(nf.ty, "val"@ + spec_accessor(nf), path)
}

/// One field of the native value projected to its ABI form.
pub open spec fn spec_frag_rust_to_ffi(nf: NormField, path: Seq<char>) -> Seq<char> {
    spec_maybe_name_colon(nf) + spec_rust_to_ffi(nf.ty, "val"@ + spec_accessor(nf), path)
}

/// One field of the client value projected to its ABI form.
pub open spec fn spec_frag_swift_to_ffi(nf: NormField) -> Seq<char> {
    spec_ffi_field_name(nf) + ": "@ + spec_swift_to_ffi(nf.ty, "val."@ + spec_ffi_field_name(nf))
}

/// One field of the ABI value projected to its client form.
pub open spec fn spec_frag_ffi_to_swift(nf: NormField) -> Seq<char> {
    spec_ffi_field_name(nf) + ": "@ + spec_ffi_to_swift(nf.ty, "val."@ + spec_ffi_field_name(nf))
}

/// The whole ABI-to-native conversion expression for this struct.
pub open spec fn spec_convert_ffi_repr_to_rust(
    s: SharedStruct,
    rust_val: Seq<char>,
    path: Seq<char>,
) -> Seq<char> {
    let parts = spec_normalized(s.fields).map_values(
        |nf: NormField| spec_frag_ffi_to_rust(nf, path),
    );
    let wrapped = spec_wrap_fields(s.fields, parts);
    if spec_normalized(s.fields).len() == 0 {
        s.name@ + wrapped
    } else {
        "{ let val = "@ + rust_val + "; "@ + s.name@ + wrapped + " }"@
    }
}

/// The whole generated `into_ffi_repr` method attached to the native type.
pub open spec fn spec_generate_into_ffi_repr_method(
    s: SharedStruct,
    expression: Seq<char>,
    prefix: Seq<char>,
    path: Seq<char>,
) -> Seq<char> {
    let ffi_ident = prefix + s.name@;
    let parts = spec_normalized(s.fields).map_values(
        |nf: NormField| spec_frag_rust_to_ffi(nf, path),
    );
    let inner = if spec_normalized(s.fields).len() == 0 {
        ffi_ident + " { _private: 123 }"@
    } else {
        "{ let val = "@ + expression + "; "@ + ffi_ident + spec_wrap_fields(s.fields, parts)
            + " }"@
    };
    "impl "@ + s.name@ + " { #[doc(hidden)] #[inline(always)] pub fn into_ffi_repr(self) -> "@
        + ffi_ident + " { "@ + inner + " } }"@
}

/// The whole client-to-ABI conversion expression for this struct.
pub open spec fn spec_convert_swift_to_ffi_repr(
    s: SharedStruct,
    expression: Seq<char>,
    prefix: Seq<char>,
    types: TypeDeclarations,
) -> Seq<char> {
    let name = spec_ffi_name_string(s, prefix, types);
    if spec_normalized(s.fields).len() == 0 {
        name + "(_private: 123)"@
    } else {
        let parts = spec_normalized(s.fields).map_values(
            |nf: NormField| spec_frag_swift_to_ffi(nf),
        );
        "{ let val = "@ + expression + "; return "@ + name + "("@ + spec_join(parts, ", "@)
            + "); }()"@
    }
}

/// The whole ABI-to-client conversion expression for this struct.
pub open spec fn spec_convert_ffi_expression_to_swift(
    s: SharedStruct,
    expression: Seq<char>,
    types: TypeDeclarations,
) -> Seq<char> {
    let name = spec_swift_name_string(s, types);
    if spec_normalized(s.fields).len() == 0 {
        name + "()"@
    } else {
        let parts = spec_normalized(s.fields).map_values(
            |nf: NormField| spec_frag_ffi_to_swift(nf),
        );
        "{ let val = "@ + expression + "; return "@ + name + "("@ + spec_join(parts, ", "@)
            + "); }()"@
    }
}

impl SharedStruct {
    /// Wrap converted field fragments in the declared shape.
    fn wrap_fields(&self, parts: &Vec<String>) -> (r: String)
        ensures
            r@ == spec_wrap_fields(self.fields, views_of(parts@)),
    {
        match &self.fields {
            StructFields::Named(_) => {
                if parts.len() == 0 {
                    String::from_str(" {}")
                } else {
                    let joined = join_strings(parts, ", ");
                    let mut s = String::from_str(" { ");
                    s.append(joined.as_str());
                    s.append(" }");
                    proof {
                        assert(s@ =~= spec_wrap_fields(self.fields, views_of(parts@)));
                    }
                    s
                }
            },
            StructFields::Unnamed(_) => {
                let joined = join_strings(parts, ", ");
                let mut s = String::from_str("(");
                s.append(joined.as_str());
                s.append(")");
                proof {
                    assert(s@ =~= spec_wrap_fields(self.fields, views_of(parts@)));
                }
                s
            },
            StructFields::Unit => String::new(),
        }
    }

    /// Project each field of the ABI value back to its native form.
    fn frags_ffi_to_rust(nfs: &Vec<NormField>, path: &str, types: &TypeDeclarations) -> (r: Result<
        Vec<String>,
        BridgeError,
    >)
        ensures
            match r {
                Ok(v) => spec_fields_resolve(nfs@, *types) && views_of(v@) == nfs@.map_values(
                    |nf: NormField| spec_frag_ffi_to_rust(nf, path@),
                ),
                Err(e) => !spec_fields_resolve(nfs@, *types) && e == BridgeError::UnresolvedType,
            },
    {
        let mut parts: Vec<String> = Vec::new();
        let mut i: usize = 0;
        while i < nfs.len()
            invariant
                i <= nfs.len(),
                views_of(parts@) =~= nfs@.take(i as int).map_values(
                    |nf: NormField| spec_frag_ffi_to_rust(nf, path@),
                ),
                forall|j: int| 0 <= j < i ==> spec_resolves(#[trigger] nfs@[j].ty, *types),
            decreases nfs.len() - i,
        {
            let acc = field_accessor(&nfs[i], "val");
            let conv = ffi_to_rust(&nfs[i].ty, acc.as_str(), path, types)?;
            let mut frag = maybe_name_colon(&nfs[i]);
            frag.append(conv.as_str());
            let ghost prev = parts@;
            parts.push(frag);
            proof {
                assert(views_of(parts@) =~= views_of(prev).push(parts@[i as int]@));
                assert(nfs@.take(i + 1).map_values(
                    |nf: NormField| spec_frag_ffi_to_rust(nf, path@),
                ) =~= nfs@.take(i as int).map_values(
                    |nf: NormField| spec_frag_ffi_to_rust(nf, path@),
                ).push(spec_frag_ffi_to_rust(nfs@[i as int], path@)));
            }
            i = i + 1;
        }
        proof {
            assert(nfs@.take(nfs@.len() as int) =~= nfs@);
        }
        Ok(parts)
    }

    /// Project each field of the native value to its ABI form.
    fn frags_rust_to_ffi(nfs: &Vec<NormField>, path: &str, types: &TypeDeclarations) -> (r: Result<
        Vec<String>,
        BridgeError,
    >)
        ensures
            match r {
                Ok(v) => spec_fields_resolve(nfs@, *types) && views_of(v@) == nfs@.map_values(
                    |nf: NormField| spec_frag_rust_to_ffi(nf, path@),
                ),
                Err(e) => !spec_fields_resolve(nfs@, *types) && e == BridgeError::UnresolvedType,
            },
    {
        let mut parts: Vec<String> = Vec::new();
        let mut i: usize = 0;
        while i < nfs.len()
            invariant
                i <= nfs.len(),
                views_of(parts@) =~= nfs@.take(i as int).map_values(
                    |nf: NormField| spec_frag_rust_to_ffi(nf, path@),
                ),
                forall|j: int| 0 <= j < i ==> spec_resolves(#[trigger] nfs@[j].ty, *types),
            decreases nfs.len() - i,
        {
            let acc = field_accessor(&nfs[i], "val");
            let conv = rust_to_ffi(&nfs[i].ty, acc.as_str(), path, types)?;
            let mut frag = maybe_name_colon(&nfs[i]);
            frag.append(conv.as_str());
            let ghost prev = parts@;
            parts.push(frag);
            proof {
                assert(views_of(parts@) =~= views_of(prev).push(parts@[i as int]@));
                assert(nfs@.take(i + 1).map_values(
                    |nf: NormField| spec_frag_rust_to_ffi(nf, path@),
                ) =~= nfs@.take(i as int).map_values(
                    |nf: NormField| spec_frag_rust_to_ffi(nf, path@),
                ).push(spec_frag_rust_to_ffi(nfs@[i as int], path@)));
            }
            i = i + 1;
        }
        proof {
            assert(nfs@.take(nfs@.len() as int) =~= nfs@);
        }
        Ok(parts)
    }

    /// Project each field of the client value to its ABI form.
    fn frags_swift_to_ffi(nfs: &Vec<NormField>, types: &TypeDeclarations) -> (r: Result<
        Vec<String>,
        BridgeError,
    >)
        ensures
            match r {
                Ok(v) => spec_fields_resolve(nfs@, *types) && views_of(v@) == nfs@.map_values(
                    |nf: NormField| spec_frag_swift_to_ffi(nf),
                ),
                Err(e) => !spec_fields_resolve(nfs@, *types) && e == BridgeError::UnresolvedType,
            },
    {
        let mut parts: Vec<String> = Vec::new();
        let mut i: usize = 0;
        while i < nfs.len()
            invariant
                i <= nfs.len(),
                views_of(parts@) =~= nfs@.take(i as int).map_values(
                    |nf: NormField| spec_frag_swift_to_ffi(nf),
                ),
                forall|j: int| 0 <= j < i ==> spec_resolves(#[trigger] nfs@[j].ty, *types),
            decreases nfs.len() - i,
        {
            let fname = ffi_field_name(&nfs[i]);
            let mut access = String::from_str("val.");
            access.append(fname.as_str());
            let conv = swift_to_ffi(&nfs[i].ty, access.as_str(), types)?;
            let mut frag = fname.clone();
            frag.append(": ");
            frag.append(conv.as_str());
            proof {
                assert(frag@ =~= spec_frag_swift_to_ffi(nfs@[i as int]));
            }
            let ghost prev = parts@;
            parts.push(frag);
            proof {
                assert(views_of(prev).len() == i as int);
                assert(prev.len() == i as int);
                assert(parts@.len() == i + 1);
                assert(views_of(parts@) =~= views_of(prev).push(parts@[i as int]@));
                assert(nfs@.take(i + 1).map_values(|nf: NormField| spec_frag_swift_to_ffi(nf))
                    =~= nfs@.take(i as int).map_values(
                    |nf: NormField| spec_frag_swift_to_ffi(nf),
                ).push(spec_frag_swift_to_ffi(nfs@[i as int])));
            }
            i = i + 1;
        }
        proof {
            assert(nfs@.take(nfs@.len() as int) =~= nfs@);
        }
        Ok(parts)
    }

    /// Project each field of the ABI value to its client form.
    fn frags_ffi_to_swift(nfs: &Vec<NormField>, types: &TypeDeclarations) -> (r: Result<
        Vec<String>,
        BridgeError,
    >)
        ensures
            match r {
                Ok(v) => spec_fields_resolve(nfs@, *types) && views_of(v@) == nfs@.map_values(
                    |nf: NormField| spec_frag_ffi_to_swift(nf),
                ),
                Err(e) => !spec_fields_resolve(nfs@, *types) && e == BridgeError::UnresolvedType,
            },
    {
        let mut parts: Vec<String> = Vec::new();
        let mut i: usize = 0;
        while i < nfs.len()
            invariant
                i <= nfs.len(),
                views_of(parts@) =~= nfs@.take(i as int).map_values(
                    |nf: NormField| spec_frag_ffi_to_swift(nf),
                ),
                forall|j: int| 0 <= j < i ==> spec_resolves(#[trigger] nfs@[j].ty, *types),
            decreases nfs.len() - i,
        {
            let fname = ffi_field_name(&nfs[i]);
            let mut access = String::from_str("val.");
            access.append(fname.as_str());
            let conv = ffi_to_swift(&nfs[i].ty, access.as_str(), types)?;
            let mut frag = fname.clone();
            frag.append(": ");
            frag.append(conv.as_str());
            proof {
                assert(frag@ =~= spec_frag_ffi_to_swift(nfs@[i as int]));
            }
            let ghost prev = parts@;
            parts.push(frag);
            proof {
                assert(views_of(prev).len() == i as int);
                assert(prev.len() == i as int);
                assert(parts@.len() == i + 1);
                assert(views_of(parts@) =~= views_of(prev).push(parts@[i as int]@));
                assert(nfs@.take(i + 1).map_values(|nf: NormField| spec_frag_ffi_to_swift(nf))
                    =~= nfs@.take(i as int).map_values(
                    |nf: NormField| spec_frag_ffi_to_swift(nf),
                ).push(spec_frag_ffi_to_swift(nfs@[i as int])));
            }
            i = i + 1;
        }
        proof {
            assert(nfs@.take(nfs@.len() as int) =~= nfs@);
        }
        Ok(parts)
    }

    /// Convert the ABI representation of this struct into its native form:
    /// bind the ABI value once, project every field back, rebuild the native
    /// literal in the declared shape.
    pub fn convert_ffi_repr_to_rust(
        &self,
        rust_val: &str,
        path: &str,
        types: &TypeDeclarations,
    ) -> (r: Result<String, BridgeError>)
        ensures
            match r {
                Ok(s) => spec_fields_resolve(spec_normalized(self.fields), *types) && s@
                    == spec_convert_ffi_repr_to_rust(*self, rust_val@, path@),
                Err(e) => !spec_fields_resolve(spec_normalized(self.fields), *types) && e
                    == BridgeError::UnresolvedType,
            },
    {
        let nfs = self.fields.normalized_fields();
        let parts = Self::frags_ffi_to_rust(&nfs, path, types)?;
        let wrapped = self.wrap_fields(&parts);
        if self.fields.is_empty() {
            let mut s = self.name.clone();
            s.append(wrapped.as_str());
            proof {
                assert(s@ =~= spec_convert_ffi_repr_to_rust(*self, rust_val@, path@));
            }
            Ok(s)
        } else {
            let mut s = String::from_str("{ let val = ");
            s.append(rust_val);
            s.append("; ");
            s.append(self.name.as_str());
            s.append(wrapped.as_str());
            s.append(" }");
            proof {
                assert(s@ =~= spec_convert_ffi_repr_to_rust(*self, rust_val@, path@));
            }
            Ok(s)
        }
    }

    /// Generate the native type's `into_ffi_repr` method: bind the source
    /// expression once, project every field, assemble the ABI literal — or,
    /// for a zero-field struct, the single placeholder field that keeps the
    /// ABI record's size nonzero.
    pub fn generate_into_ffi_repr_method(
        &self,
        expression: &str,
        prefix: &str,
        path: &str,
        types: &TypeDeclarations,
    ) -> (r: Result<String, BridgeError>)
        ensures
            match r {
                Ok(s) => spec_fields_resolve(spec_normalized(self.fields), *types) && s@
                    == spec_generate_into_ffi_repr_method(*self, expression@, prefix@, path@),
                Err(e) => !spec_fields_resolve(spec_normalized(self.fields), *types) && e
                    == BridgeError::UnresolvedType,
            },
    {
        let nfs = self.fields.normalized_fields();
        let parts = Self::frags_rust_to_ffi(&nfs, path, types)?;
        let wrapped = self.wrap_fields(&parts);
        let ffi_ident = self.ffi_ident_string(prefix);
        let mut inner: String;
        if self.fields.is_empty() {
            inner = ffi_ident.clone();
            inner.append(" { _private: 123 }");
        } else {
            inner = String::from_str("{ let val = ");
            inner.append(expression);
            inner.append("; ");
            inner.append(ffi_ident.as_str());
            inner.append(wrapped.as_str());
            inner.append(" }");
        }
        let mut s = String::from_str("impl ");
        s.append(self.name.as_str());
        s.append(" { #[doc(hidden)] #[inline(always)] pub fn into_ffi_repr(self) -> ");
        s.append(ffi_ident.as_str());
        s.append(" { ");
        s.append(inner.as_str());
        s.append(" } }");
        proof {
            assert(s@ =~= spec_generate_into_ffi_repr_method(*self, expression@, prefix@, path@));
        }
        Ok(s)
    }

    /// Convert a client-side value of this struct into its ABI form: bind
    /// the source once, project every field, invoke the ABI constructor —
    /// or, with no fields, pass the placeholder directly.
    pub fn convert_swift_to_ffi_repr(
        &self,
        expression: &str,
        prefix: &str,
        types: &TypeDeclarations,
    ) -> (r: Result<String, BridgeError>)
        ensures
            match r {
                Ok(s) => spec_name_ok(*self, *types) && spec_fields_resolve(
                    spec_normalized(self.fields),
                    *types,
                ) && s@ == spec_convert_swift_to_ffi_repr(*self, expression@, prefix@, *types),
                Err(e) => !(spec_name_ok(*self, *types) && spec_fields_resolve(
                    spec_normalized(self.fields),
                    *types,
                )) && e == crate::shared_struct::spec_name_err(*self, *types),
            },
    {
        let struct_name = self.ffi_name_string(prefix, types)?;
        let nfs = self.fields.normalized_fields();
        let parts = Self::frags_swift_to_ffi(&nfs, types)?;
        if self.fields.is_empty() {
            let mut s = struct_name;
            s.append("(_private: 123)");
            proof {
                assert(s@ =~= spec_convert_swift_to_ffi_repr(*self, expression@, prefix@, *types));
            }
            Ok(s)
        } else {
            let joined = join_strings(&parts, ", ");
            let mut s = String::from_str("{ let val = ");
            s.append(expression);
            s.append("; return ");
            s.append(struct_name.as_str());
            s.append("(");
            s.append(joined.as_str());
            s.append("); }()");
            proof {
                assert(s@ =~= spec_convert_swift_to_ffi_repr(*self, expression@, prefix@, *types));
            }
            Ok(s)
        }
    }

    /// Convert an ABI value of this struct into its client form: bind the
    /// source once, project every field, invoke the client constructor.
    pub fn convert_ffi_expression_to_swift(&self, expression: &str, types: &TypeDeclarations) -> (r:
        Result<String, BridgeError>)
        ensures
            match r {
                Ok(s) => spec_name_ok(*self, *types) && spec_fields_resolve(
                    spec_normalized(self.fields),
                    *types,
                ) && s@ == spec_convert_ffi_expression_to_swift(*self, expression@, *types),
                Err(e) => !(spec_name_ok(*self, *types) && spec_fields_resolve(
                    spec_normalized(self.fields),
                    *types,
                )) && e == crate::shared_struct::spec_name_err(*self, *types),
            },
    {
        let struct_name = self.swift_name_string(types)?;
        let nfs = self.fields.normalized_fields();
        let parts = Self::frags_ffi_to_swift(&nfs, types)?;
        if self.fields.is_empty() {
            let mut s = struct_name;
            s.append("()");
            proof {
                assert(s@ =~= spec_convert_ffi_expression_to_swift(*self, expression@, *types));
            }
            Ok(s)
        } else {
            let joined = join_strings(&parts, ", ");
            let mut s = String::from_str("{ let val = ");
            s.append(expression);
            s.append("; return ");
            s.append(struct_name.as_str());
            s.append("(");
            s.append(joined.as_str());
            s.append("); }()");
            proof {
                assert(s@ =~= spec_convert_ffi_expression_to_swift(*self, expression@, *types));
            }
            Ok(s)
        }
    }
}

} // verus!
