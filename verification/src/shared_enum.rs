//! Tagged-union declarations and per-variant synthesis.
//!
//! Each variant contributes one declaration entry in the native and ABI
//! definitions, and exactly one conversion arm in each direction — a
//! completeness invariant, not an optimization: a variant without a matching
//! arm must fail to build rather than silently drop data.  A variant with no
//! payload still occupies a concrete ABI slot (one placeholder byte), because
//! a C-compatible tagged union needs every case to be addressable.

use vstd::prelude::*;

use crate::BridgeError;
use crate::fields::NormField;
use crate::fields::StructFields;
use crate::fields::spec_normalized;
use crate::fields::spec_fields_resolve;
use crate::text::spec_dec;
use crate::text::spec_join;
use crate::text::views_of;
use crate::text::dec_string;
use crate::text::join_strings;
use crate::ty::TypeDeclarations;
use crate::ty::spec_resolves;
use crate::ty::spec_rust_type_path;
use crate::ty::spec_ffi_rust_type;
use crate::ty::spec_rust_to_ffi;
use crate::ty::spec_ffi_to_rust;
use crate::ty::rust_type_path_raw;
use crate::ty::ffi_rust_type;
use crate::ty::rust_to_ffi;
use crate::ty::ffi_to_rust;

verus! {

/// One variant of a tagged union: a name and a field shape.
#[derive(Debug, PartialEq)]
pub struct EnumVariant {
    pub name: String,
    pub fields: StructFields,
}

/// A tagged-union declaration.
#[derive(Debug, PartialEq)]
pub struct SharedEnum {
    /// The declared (native) name.
    pub name: String,
    /// The variants, in declaration order; the order fixes the tag values.
    pub variants: Vec<EnumVariant>,
    /// True when the canonical definition lives in another module.
    pub already_declared: bool,
}

/// The binder for one positional payload field inside a conversion arm.
pub open spec fn spec_binder(nf: NormField) -> Seq<char> {
    "x"@ + spec_dec(nf.idx as nat)
}

/// The binder list of a positional payload, in order.
pub open spec fn spec_binders(nfs: Seq<NormField>) -> Seq<char> {
    spec_join(nfs.map_values(|nf: NormField| spec_binder(nf)), ", "@)
}

/// Whether the variant carries payload data.
pub open spec fn spec_variant_has_data(v: EnumVariant) -> bool {
    spec_normalized(v.fields).len() > 0
}

/// A variant's entry in the native definition: the declared payload types,
/// verbatim.
pub open spec fn spec_native_variant(v: EnumVariant) -> Seq<char> {
    match v.fields {
        StructFields::Unit => v.name@,
        StructFields::Unnamed(_) => v.name@ + "("@ + spec_join(
            spec_normalized(v.fields).map_values(|nf: NormField| spec_rust_type_path(nf.ty)),
            ", "@,
        ) + ")"@,
        StructFields::Named(_) => Seq::<char>::empty(),
    }
}

/// A variant's entry in the ABI definition: each payload field projected
/// through its ABI type token; a payload-free variant gets one placeholder
/// byte so its case still occupies a concrete, addressable slot.
pub open spec fn spec_ffi_variant(
    v: EnumVariant,
    prefix: Seq<char>,
    path: Seq<char>,
    types: TypeDeclarations,
) -> Seq<char> {
    match v.fields {
        StructFields::Unit => v.name@ + "(u8)"@,
        StructFields::Unnamed(_) => v.name@ + "("@ + spec_join(
            spec_normalized(v.fields).map_values(
                |nf: NormField| spec_ffi_rust_type(nf.ty, prefix, path, types),
            ),
            ", "@,
        ) + ")"@,
        StructFields::Named(_) => Seq::<char>::empty(),
    }
}

/// The variant's native-to-ABI conversion arm.
pub open spec fn spec_to_ffi_arm(
    v: EnumVariant,
    enum_name: Seq<char>,
    ffi_name: Seq<char>,
    path: Seq<char>,
) -> Seq<char> {
    match v.fields {
        StructFields::Unit => enum_name + "::"@ + v.name@ + " => "@ + ffi_name + "::"@ + v.name@
            + "(123)"@,
        StructFields::Unnamed(_) => enum_name + "::"@ + v.name@ + "("@ + spec_binders(
            spec_normalized(v.fields),
        ) + ") => "@ + ffi_name + "::"@ + v.name@ + "("@ + spec_join(
            spec_normalized(v.fields).map_values(
                |nf: NormField| spec_rust_to_ffi(nf.ty, spec_binder(nf), path),
            ),
            ", "@,
        ) + ")"@,
        StructFields::Named(_) => Seq::<char>::empty(),
    }
}

/// The variant's ABI-to-native conversion arm.
pub open spec fn spec_to_rust_arm(
    v: EnumVariant,
    enum_name: Seq<char>,
    ffi_name: Seq<char>,
    path: Seq<char>,
) -> Seq<char> {
    match v.fields {
        StructFields::Unit => ffi_name + "::"@ + v.name@ + "(_) => "@ + enum_name + "::"@
            + v.name@,
        StructFields::Unnamed(_) => ffi_name + "::"@ + v.name@ + "("@ + spec_binders(
            spec_normalized(v.fields),
        ) + ") => "@ + enum_name + "::"@ + v.name@ + "("@ + spec_join(
            spec_normalized(v.fields).map_values(
                |nf: NormField| spec_ffi_to_rust(nf.ty, spec_binder(nf), path),
            ),
            ", "@,
        ) + ")"@,
        StructFields::Named(_) => Seq::<char>::empty(),
    }
}

impl EnumVariant {
    /// The binder list of the variant's positional payload.
    fn binders(nfs: &Vec<NormField>) -> (r: Vec<String>)
        ensures
            views_of(r@) == nfs@.map_values(|nf: NormField| spec_binder(nf)),
    {
        let mut parts: Vec<String> = Vec::new();
        let mut i: usize = 0;
        while i < nfs.len()
            invariant
                i <= nfs.len(),
                views_of(parts@) =~= nfs@.take(i as int).map_values(
                    |nf: NormField| spec_binder(nf),
                ),
            decreases nfs.len() - i,
        {
            let idx = dec_string(nfs[i].idx);
            let mut b = String::from_str("x");
            b.append(idx.as_str());
            proof {
                assert(b@ =~= spec_binder(nfs@[i as int]));
            }
            let ghost prev = parts@;
            parts.push(b);
            proof {
                assert(views_of(prev).len() == i as int);
                assert(prev.len() == i as int);
                assert(views_of(parts@) =~= views_of(prev).push(parts@[i as int]@));
                assert(nfs@.take(i + 1).map_values(|nf: NormField| spec_binder(nf))
                    =~= nfs@.take(i as int).map_values(|nf: NormField| spec_binder(nf)).push(
                    spec_binder(nfs@[i as int]),
                ));
            }
            i = i + 1;
        }
        proof {
            assert(nfs@.take(nfs@.len() as int) =~= nfs@);
        }
        parts
    }

    /// The declared payload types, verbatim.
    fn native_payload_types(nfs: &Vec<NormField>) -> (r: Vec<String>)
        ensures
            views_of(r@) == nfs@.map_values(|nf: NormField| spec_rust_type_path(nf.ty)),
    {
        let mut parts: Vec<String> = Vec::new();
        let mut i: usize = 0;
        while i < nfs.len()
            invariant
                i <= nfs.len(),
                views_of(parts@) =~= nfs@.take(i as int).map_values(
                    |nf: NormField| spec_rust_type_path(nf.ty),
                ),
            decreases nfs.len() - i,
        {
            let p = rust_type_path_raw(&nfs[i].ty);
            let ghost prev = parts@;
            parts.push(p);
            proof {
                assert(views_of(prev).len() == i as int);
                assert(prev.len() == i as int);
                assert(views_of(parts@) =~= views_of(prev).push(parts@[i as int]@));
                assert(nfs@.take(i + 1).map_values(|nf: NormField| spec_rust_type_path(nf.ty))
                    =~= nfs@.take(i as int).map_values(
                    |nf: NormField| spec_rust_type_path(nf.ty),
                ).push(spec_rust_type_path(nfs@[i as int].ty)));
            }
            i = i + 1;
        }
        proof {
            assert(nfs@.take(nfs@.len() as int) =~= nfs@);
        }
        parts
    }

    /// Each payload binder converted from native to ABI form.
    fn to_ffi_convs(nfs: &Vec<NormField>, path: &str, types: &TypeDeclarations) -> (r: Result<
        Vec<String>,
        BridgeError,
    >)
        ensures
            match r {
                Ok(v) => spec_fields_resolve(nfs@, *types) && views_of(v@) == nfs@.map_values(
                    |nf: NormField| spec_rust_to_ffi(nf.ty, spec_binder(nf), path@),
                ),
                Err(e) => !spec_fields_resolve(nfs@, *types) && e == BridgeError::UnresolvedType,
            },
    {
        let mut parts: Vec<String> = Vec::new();
        let mut i: usize = 0;
        while i < nfs.len()
            invariant
                i <= nfs.len(),
                views_of(parts@) =~= nfs@.take(i as int).map_values(
                    |nf: NormField| spec_rust_to_ffi(nf.ty, spec_binder(nf), path@),
                ),
                forall|j: int| 0 <= j < i ==> spec_resolves(#[trigger] nfs@[j].ty, *types),
            decreases nfs.len() - i,
        {
            let idx = dec_string(nfs[i].idx);
            let mut b = String::from_str("x");
            b.append(idx.as_str());
            let conv = rust_to_ffi(&nfs[i].ty, b.as_str(), path, types)?;
            proof {
                assert(conv@ =~= spec_rust_to_ffi(nfs@[i as int].ty, spec_binder(nfs@[i as int]), path@));
            }
            let ghost prev = parts@;
            parts.push(conv);
            proof {
                assert(views_of(prev).len() == i as int);
                assert(prev.len() == i as int);
                assert(views_of(parts@) =~= views_of(prev).push(parts@[i as int]@));
                assert(nfs@.take(i + 1).map_values(
                    |nf: NormField| spec_rust_to_ffi(nf.ty, spec_binder(nf), path@),
                ) =~= nfs@.take(i as int).map_values(
                    |nf: NormField| spec_rust_to_ffi(nf.ty, spec_binder(nf), path@),
                ).push(spec_rust_to_ffi(nfs@[i as int].ty, spec_binder(nfs@[i as int]), path@)));
            }
            i = i + 1;
        }
        proof {
            assert(nfs@.take(nfs@.len() as int) =~= nfs@);
        }
        Ok(parts)
    }

    /// Each payload binder converted from ABI back to native form.
    fn to_rust_convs(nfs: &Vec<NormField>, path: &str, types: &TypeDeclarations) -> (r: Result<
        Vec<String>,
        BridgeError,
    >)
        ensures
            match r {
                Ok(v) => spec_fields_resolve(nfs@, *types) && views_of(v@) == nfs@.map_values(
                    |nf: NormField| spec_ffi_to_rust(nf.ty, spec_binder(nf), path@),
                ),
                Err(e) => !spec_fields_resolve(nfs@, *types) && e == BridgeError::UnresolvedType,
            },
    {
        let mut parts: Vec<String> = Vec::new();
        let mut i: usize = 0;
        while i < nfs.len()
            invariant
                i <= nfs.len(),
                views_of(parts@) =~= nfs@.take(i as int).map_values(
                    |nf: NormField| spec_ffi_to_rust(nf.ty, spec_binder(nf), path@),
                ),
                forall|j: int| 0 <= j < i ==> spec_resolves(#[trigger] nfs@[j].ty, *types),
            decreases nfs.len() - i,
        {
            let idx = dec_string(nfs[i].idx);
            let mut b = String::from_str("x");
            b.append(idx.as_str());
            let conv = ffi_to_rust(&nfs[i].ty, b.as_str(), path, types)?;
            proof {
                assert(conv@ =~= spec_ffi_to_rust(nfs@[i as int].ty, spec_binder(nfs@[i as int]), path@));
            }
            let ghost prev = parts@;
            parts.push(conv);
            proof {
                assert(views_of(prev).len() == i as int);
                assert(prev.len() == i as int);
                assert(views_of(parts@) =~= views_of(prev).push(parts@[i as int]@));
                assert(nfs@.take(i + 1).map_values(
                    |nf: NormField| spec_ffi_to_rust(nf.ty, spec_binder(nf), path@),
                ) =~= nfs@.take(i as int).map_values(
                    |nf: NormField| spec_ffi_to_rust(nf.ty, spec_binder(nf), path@),
                ).push(spec_ffi_to_rust(nfs@[i as int].ty, spec_binder(nfs@[i as int]), path@)));
            }
            i = i + 1;
        }
        proof {
            assert(nfs@.take(nfs@.len() as int) =~= nfs@);
        }
        Ok(parts)
    }

    /// Whether the variant carries payload data.
    pub fn has_data(&self) -> (r: bool)
        ensures
            r == spec_variant_has_data(*self),
    {
        !self.fields.is_empty()
    }

    /// The variant's entry in the native definition.
    pub fn native_variant(&self) -> (r: Result<String, BridgeError>)
        ensures
            match r {
                Ok(s) => !(self.fields matches StructFields::Named(_)) && s@
                    == spec_native_variant(*self),
                Err(e) => self.fields matches StructFields::Named(_) && e
                    == BridgeError::UnsupportedShape,
            },
    {
        match &self.fields {
            StructFields::Unit => Ok(self.name.clone()),
            StructFields::Unnamed(_) => {
                let nfs = self.fields.normalized_fields();
                let parts = Self::native_payload_types(&nfs);
                let joined = join_strings(&parts, ", ");
                let mut s = self.name.clone();
                s.append("(");
                s.append(joined.as_str());
                s.append(")");
                proof {
                    assert(s@ =~= spec_native_variant(*self));
                }
                Ok(s)
            },
            StructFields::Named(_) => Err(BridgeError::UnsupportedShape),
        }
    }

    /// The variant's entry in the ABI definition: a placeholder byte when
    /// there is no payload, the ABI type tokens otherwise.
    pub fn ffi_variant(&self, prefix: &str, path: &str, types: &TypeDeclarations) -> (r: Result<
        String,
        BridgeError,
    >)
        ensures
            match r {
                Ok(s) => !(self.fields matches StructFields::Named(_)) && spec_fields_resolve(
                    spec_normalized(self.fields),
                    *types,
                ) && s@ == spec_ffi_variant(*self, prefix@, path@, *types),
                Err(e) => (e == BridgeError::UnsupportedShape && self.fields matches
                    StructFields::Named(_)) || (e == BridgeError::UnresolvedType && !(
                self.fields matches StructFields::Named(_)) && !spec_fields_resolve(
                    spec_normalized(self.fields),
                    *types,
                )),
            },
    {
        match &self.fields {
            StructFields::Unit => {
                let mut s = self.name.clone();
                s.append("(u8)");
                proof {
                    assert(s@ =~= spec_ffi_variant(*self, prefix@, path@, *types));
                }
                Ok(s)
            },
            StructFields::Unnamed(_) => {
                let nfs = self.fields.normalized_fields();
                let parts = Self::ffi_payload_types(&nfs, prefix, path, types)?;
                let joined = join_strings(&parts, ", ");
                let mut s = self.name.clone();
                s.append("(");
                s.append(joined.as_str());
                s.append(")");
                proof {
                    assert(s@ =~= spec_ffi_variant(*self, prefix@, path@, *types));
                }
                Ok(s)
            },
            StructFields::Named(_) => Err(BridgeError::UnsupportedShape),
        }
    }

    /// The ABI type tokens of the payload fields.
    fn ffi_payload_types(
        nfs: &Vec<NormField>,
        prefix: &str,
        path: &str,
        types: &TypeDeclarations,
    ) -> (r: Result<Vec<String>, BridgeError>)
        ensures
            match r {
                Ok(v) => spec_fields_resolve(nfs@, *types) && views_of(v@) == nfs@.map_values(
                    |nf: NormField| spec_ffi_rust_type(nf.ty, prefix@, path@, *types),
                ),
                Err(e) => !spec_fields_resolve(nfs@, *types) && e == BridgeError::UnresolvedType,
            },
    {
        let mut parts: Vec<String> = Vec::new();
        let mut i: usize = 0;
        while i < nfs.len()
            invariant
                i <= nfs.len(),
                views_of(parts@) =~= nfs@.take(i as int).map_values(
                    |nf: NormField| spec_ffi_rust_type(nf.ty, prefix@, path@, *types),
                ),
                forall|j: int| 0 <= j < i ==> spec_resolves(#[trigger] nfs@[j].ty, *types),
            decreases nfs.len() - i,
        {
            let p = ffi_rust_type(&nfs[i].ty, prefix, path, types)?;
            let ghost prev = parts@;
            parts.push(p);
            proof {
                assert(views_of(prev).len() == i as int);
                assert(prev.len() == i as int);
                assert(views_of(parts@) =~= views_of(prev).push(parts@[i as int]@));
                assert(nfs@.take(i + 1).map_values(
                    |nf: NormField| spec_ffi_rust_type(nf.ty, prefix@, path@, *types),
                ) =~= nfs@.take(i as int).map_values(
                    |nf: NormField| spec_ffi_rust_type(nf.ty, prefix@, path@, *types),
                ).push(spec_ffi_rust_type(nfs@[i as int].ty, prefix@, path@, *types)));
            }
            i = i + 1;
        }
        proof {
            assert(nfs@.take(nfs@.len() as int) =~= nfs@);
        }
        Ok(parts)
    }

    /// The variant's native-to-ABI conversion arm: a payload-free variant
    /// carries the placeholder byte, a positional payload binds each field
    /// and converts it.
    pub fn convert_rust_expression_to_ffi_repr(
        &self,
        enum_name: &str,
        ffi_name: &str,
        path: &str,
        types: &TypeDeclarations,
    ) -> (r: Result<String, BridgeError>)
        ensures
            match r {
                Ok(s) => !(self.fields matches StructFields::Named(_)) && spec_fields_resolve(
                    spec_normalized(self.fields),
                    *types,
                ) && s@ == spec_to_ffi_arm(*self, enum_name@, ffi_name@, path@),
                Err(e) => (e == BridgeError::UnsupportedShape && self.fields matches
                    StructFields::Named(_)) || (e == BridgeError::UnresolvedType && !(
                self.fields matches StructFields::Named(_)) && !spec_fields_resolve(
                    spec_normalized(self.fields),
                    *types,
                )),
            },
    {
        match &self.fields {
            StructFields::Unit => {
                let mut s = String::from_str(enum_name);
                s.append("::");
                s.append(self.name.as_str());
                s.append(" => ");
                s.append(ffi_name);
                s.append("::");
                s.append(self.name.as_str());
                s.append("(123)");
                proof {
                    assert(s@ =~= spec_to_ffi_arm(*self, enum_name@, ffi_name@, path@));
                }
                Ok(s)
            },
            StructFields::Unnamed(_) => {
                let nfs = self.fields.normalized_fields();
                let binders = Self::binders(&nfs);
                let convs = Self::to_ffi_convs(&nfs, path, types)?;
                let binders_joined = join_strings(&binders, ", ");
                let convs_joined = join_strings(&convs, ", ");
                let mut s = String::from_str(enum_name);
                s.append("::");
                s.append(self.name.as_str());
                s.append("(");
                s.append(binders_joined.as_str());
                s.append(") => ");
                s.append(ffi_name);
                s.append("::");
                s.append(self.name.as_str());
                s.append("(");
                s.append(convs_joined.as_str());
                s.append(")");
                proof {
                    assert(s@ =~= spec_to_ffi_arm(*self, enum_name@, ffi_name@, path@));
                }
                Ok(s)
            },
            StructFields::Named(_) => Err(BridgeError::UnsupportedShape),
        }
    }

    /// The variant's ABI-to-native conversion arm: the mirror of the arm
    /// above; the placeholder byte of a payload-free variant is ignored.
    pub fn convert_ffi_repr_to_rust(
        &self,
        enum_name: &str,
        ffi_name: &str,
        path: &str,
        types: &TypeDeclarations,
    ) -> (r: Result<String, BridgeError>)
        ensures
            match r {
                Ok(s) => !(self.fields matches StructFields::Named(_)) && spec_fields_resolve(
                    spec_normalized(self.fields),
                    *types,
                ) && s@ == spec_to_rust_arm(*self, enum_name@, ffi_name@, path@),
                Err(e) => (e == BridgeError::UnsupportedShape && self.fields matches
                    StructFields::Named(_)) || (e == BridgeError::UnresolvedType && !(
                self.fields matches StructFields::Named(_)) && !spec_fields_resolve(
                    spec_normalized(self.fields),
                    *types,
                )),
            },
    {
        match &self.fields {
            StructFields::Unit => {
                let mut s = String::from_str(ffi_name);
                s.append("::");
                s.append(self.name.as_str());
                s.append("(_) => ");
                s.append(enum_name);
                s.append("::");
                s.append(self.name.as_str());
                proof {
                    assert(s@ =~= spec_to_rust_arm(*self, enum_name@, ffi_name@, path@));
                }
                Ok(s)
            },
            StructFields::Unnamed(_) => {
                let nfs = self.fields.normalized_fields();
                let binders = Self::binders(&nfs);
                let convs = Self::to_rust_convs(&nfs, path, types)?;
                let binders_joined = join_strings(&binders, ", ");
                let convs_joined = join_strings(&convs, ", ");
                let mut s = String::from_str(ffi_name);
                s.append("::");
                s.append(self.name.as_str());
                s.append("(");
                s.append(binders_joined.as_str());
                s.append(") => ");
                s.append(enum_name);
                s.append("::");
                s.append(self.name.as_str());
                s.append("(");
                s.append(convs_joined.as_str());
                s.append(")");
                proof {
                    assert(s@ =~= spec_to_rust_arm(*self, enum_name@, ffi_name@, path@));
                }
                Ok(s)
            },
            StructFields::Named(_) => Err(BridgeError::UnsupportedShape),
        }
    }
}

/// Whether some variant carries payload data.  Value-copy capability and
/// homogeneous-collection support are granted only when none does.
pub open spec fn spec_has_data_variants(e: SharedEnum) -> bool {
    exists|i: int|
        0 <= i < e.variants@.len() && spec_variant_has_data(#[trigger] e.variants@[i])
}

impl SharedEnum {
    /// Whether some variant carries payload data.
    pub fn has_one_or_more_variants_with_data(&self) -> (r: bool)
        ensures
            r == spec_has_data_variants(*self),
    {
        let mut i: usize = 0;
        while i < self.variants.len()
            invariant
                i <= self.variants.len(),
                forall|j: int| 0 <= j < i ==> !spec_variant_has_data(#[trigger] self.variants@[j]),
            decreases self.variants.len() - i,
        {
            if self.variants[i].has_data() {
                proof {
                    assert(spec_variant_has_data(self.variants@[i as int]));
                }
                return true;
            }
            i = i + 1;
        }
        false
    }

    /// The native-side identifier of the optional-value wrapper type.
    pub fn ffi_option_ident_string(&self, prefix: &str) -> (r: String)
        ensures
            r@ == prefix@ + "Option_"@ + self.name@,
    {
        let mut s = String::from_str(prefix);
        s.append("Option_");
        s.append(self.name.as_str());
        proof {
            assert(s@ =~= prefix@ + "Option_"@ + self.name@);
        }
        s
    }
}

} // verus!
