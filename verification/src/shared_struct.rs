//! The struct engine: naming and conversion synthesis for named structs,
//! unit structs, and anonymous tuple shapes.
//!
//! Per struct the engine computes three coordinated names (native, client,
//! ABI) and the conversion fragments between the native and ABI
//! representations on both sides of the boundary.  Tuples are structural:
//! they are keyed solely by their ordered field-type sequence, and every
//! tuple artifact embeds a mangled encoding of that sequence so distinct
//! shapes never collide.

use vstd::prelude::*;

use crate::BridgeError;
use crate::fields::NormField;
use crate::fields::StructFields;
use crate::fields::UnnamedField;
use crate::fields::spec_normalized;
use crate::fields::spec_fields_resolve;
use crate::text::spec_concat;
use crate::text::spec_join;
use crate::text::views_of;
use crate::text::concat_strings;
use crate::text::join_strings;
use crate::ty::TypeRef;
use crate::ty::TypeDeclarations;
use crate::ty::spec_resolves;
use crate::ty::spec_mangle_token;
use crate::ty::spec_swift_type;
use crate::ty::mangle_token;
use crate::ty::swift_type;

verus! {

/// Whether the client language mirrors the struct as a reference type
/// (`Class`, may need a foreign-side destructor) or a value type
/// (`Structure`, passable by immutable reference, no destructor).
#[derive(Debug, Copy, Clone, PartialEq, Eq, Structural)]
pub enum StructSwiftRepr {
    Class,
    Structure,
}

/// A struct declaration: named, positional (tuple), or unit shaped.
#[derive(Debug, PartialEq)]
pub struct SharedStruct {
    /// The declared (native) name; synthesized for tuples.
    pub name: String,
    pub swift_repr: StructSwiftRepr,
    pub fields: StructFields,
    /// Client-facing name override, if any.
    pub swift_name: Option<String>,
    /// True when the canonical definition lives in another module: no
    /// native/ABI definition is emitted, references use a qualified path.
    pub already_declared: bool,
    /// True for an anonymous tuple shape, whose fields are always
    /// positional.
    pub is_tuple: bool,
}

/// The single-inhabitant ("only encoding") value of a zero-field struct on
/// each side of the boundary.
#[derive(Debug, PartialEq)]
pub struct OnlyEncoding {
    /// The client-side expression producing the value.
    pub swift: String,
    /// The native-side expression producing the value.
    pub rust: String,
}

/// A tuple must be positional: any other field shape under `is_tuple` is an
/// unsupported declaration.
pub open spec fn spec_tuple_shape_ok(s: SharedStruct) -> bool {
    !s.is_tuple || s.fields matches StructFields::Unnamed(_)
}

/// Field-type resolution only matters to naming when the struct is a tuple
/// (a non-tuple's names never look at its fields).
pub open spec fn spec_tuple_fields_resolve(s: SharedStruct, types: TypeDeclarations) -> bool {
    !s.is_tuple || spec_fields_resolve(spec_normalized(s.fields), types)
}

/// Naming succeeds iff a tuple's shape is positional and its field types
/// resolve; non-tuples always succeed.
pub open spec fn spec_name_ok(s: SharedStruct, types: TypeDeclarations) -> bool {
    spec_tuple_shape_ok(s) && spec_tuple_fields_resolve(s, types)
}

/// Which error naming reports: shape problems take precedence over
/// resolution problems.
pub open spec fn spec_name_err(s: SharedStruct, types: TypeDeclarations) -> BridgeError {
    if !spec_tuple_shape_ok(s) {
        BridgeError::UnsupportedShape
    } else {
        BridgeError::UnresolvedType
    }
}

/// The deterministic mangle of an ordered field-type sequence: each field's
/// mangle token, concatenated in order.  Primitive tokens are bare; a
/// declared name is length-prefixed so the concatenation stays injective.
/// Identical sequences always produce the identical mangle, and distinct
/// sequences distinct mangles (proved in the naming module).
pub open spec fn spec_mangled(fields: Seq<NormField>) -> Seq<char> {
    spec_concat(fields.map_values(|nf: NormField| spec_mangle_token(nf.ty)))
}

/// The client-side name of a tuple shape: the parenthesized list of each
/// field's client type token.
pub open spec fn spec_combined_swift(fields: Seq<NormField>, types: TypeDeclarations) -> Seq<
    char,
> {
    "("@ + spec_join(fields.map_values(|nf: NormField| spec_swift_type(nf.ty, types)), ", "@)
        + ")"@
}

/// The client-facing name of the struct: for tuples the combined field-type
/// list, otherwise the override or the declared name.
pub open spec fn spec_swift_name_string(s: SharedStruct, types: TypeDeclarations) -> Seq<char> {
    if s.is_tuple {
        spec_combined_swift(spec_normalized(s.fields), types)
    } else {
        match s.swift_name {
            Some(n) => n@,
            None => s.name@,
        }
    }
}

/// The globally unique ABI symbol: prefixed, and for tuples carrying the
/// mangled field-type sequence so distinct shapes cannot collide.
pub open spec fn spec_ffi_name_string(
    s: SharedStruct,
    prefix: Seq<char>,
    types: TypeDeclarations,
) -> Seq<char> {
    if s.is_tuple {
        prefix + "$"@ + s.name@ + "$"@ + spec_mangled(spec_normalized(s.fields))
    } else {
        prefix + "$"@ + spec_swift_name_string(s, types)
    }
}

/// The ABI type identifier on the native side: the prefix glued onto the
/// declared name.
pub open spec fn spec_ffi_ident(s: SharedStruct, prefix: Seq<char>) -> Seq<char> {
    prefix + s.name@
}

/// The ABI symbol of the optional-value wrapper for this struct.
pub open spec fn spec_ffi_option_name_string(
    s: SharedStruct,
    prefix: Seq<char>,
    types: TypeDeclarations,
) -> Seq<char> {
    prefix + "$Option$"@ + spec_swift_name_string(s, types)
}

/// The empty constructor tail on the native side, by shape.
pub open spec fn spec_empty_wrapper(fields: StructFields) -> Seq<char> {
    match fields {
        StructFields::Named(_) => " {}"@,
        StructFields::Unnamed(_) => "()"@,
        StructFields::Unit => Seq::<char>::empty(),
    }
}

/// Whether the struct has exactly one inhabitant here: it declares no
/// fields and is newly declared in this module.
pub open spec fn spec_only_encoding_applies(s: SharedStruct) -> bool {
    spec_normalized(s.fields).len() == 0 && !s.already_declared
}

impl SharedStruct {
    /// The mangle tokens of the normalized fields, in order.
    fn mangle_tokens(nfs: &Vec<NormField>, types: &TypeDeclarations) -> (r: Result<
        Vec<String>,
        BridgeError,
    >)
        ensures
            match r {
                Ok(v) => spec_fields_resolve(nfs@, *types) && views_of(v@) == nfs@.map_values(
                    |nf: NormField| spec_mangle_token(nf.ty),
                ),
                Err(e) => !spec_fields_resolve(nfs@, *types) && e == BridgeError::UnresolvedType,
            },
    {
        let mut parts: Vec<String> = Vec::new();
        let mut i: usize = 0;
        while i < nfs.len()
            invariant
                i <= nfs.len(),
                views_of(parts@) =~= nfs@.take(i as int).map_values(
                    |nf: NormField| spec_mangle_token(nf.ty),
                ),
                forall|j: int| 0 <= j < i ==> spec_resolves(#[trigger] nfs@[j].ty, *types),
            decreases nfs.len() - i,
        {
            let p = mangle_token(&nfs[i].ty, types)?;
            let ghost prev = parts@;
            parts.push(p);
            proof {
                assert(views_of(parts@) =~= views_of(prev).push(parts@[i as int]@));
                assert(nfs@.take(i + 1).map_values(|nf: NormField| spec_mangle_token(nf.ty))
                    =~= nfs@.take(i as int).map_values(
                    |nf: NormField| spec_mangle_token(nf.ty),
                ).push(spec_mangle_token(nfs@[i as int].ty)));
            }
            i = i + 1;
        }
        proof {
            assert(nfs@.take(nfs@.len() as int) =~= nfs@);
        }
        Ok(parts)
    }

    /// The client type tokens of the normalized fields, in order.
    fn swift_types(nfs: &Vec<NormField>, types: &TypeDeclarations) -> (r: Result<
        Vec<String>,
        BridgeError,
    >)
        ensures
            match r {
                Ok(v) => spec_fields_resolve(nfs@, *types) && views_of(v@) == nfs@.map_values(
                    |nf: NormField| spec_swift_type(nf.ty, *types),
                ),
                Err(e) => !spec_fields_resolve(nfs@, *types) && e == BridgeError::UnresolvedType,
            },
    {
        let mut parts: Vec<String> = Vec::new();
        let mut i: usize = 0;
        while i < nfs.len()
            invariant
                i <= nfs.len(),
                views_of(parts@) =~= nfs@.take(i as int).map_values(
                    |nf: NormField| spec_swift_type(nf.ty, *types),
                ),
                forall|j: int| 0 <= j < i ==> spec_resolves(#[trigger] nfs@[j].ty, *types),
            decreases nfs.len() - i,
        {
            let p = swift_type(&nfs[i].ty, types)?;
            let ghost prev = parts@;
            parts.push(p);
            proof {
                assert(views_of(parts@) =~= views_of(prev).push(parts@[i as int]@));
                assert(nfs@.take(i + 1).map_values(|nf: NormField| spec_swift_type(nf.ty, *types))
                    =~= nfs@.take(i as int).map_values(
                    |nf: NormField| spec_swift_type(nf.ty, *types),
                ).push(spec_swift_type(nfs@[i as int].ty, *types)));
            }
            i = i + 1;
        }
        proof {
            assert(nfs@.take(nfs@.len() as int) =~= nfs@);
        }
        Ok(parts)
    }

    /// The tuple mangle: each field's native type token, concatenated in
    /// declaration order.
    pub fn combine_field_types_string(&self, types: &TypeDeclarations) -> (r: Result<
        String,
        BridgeError,
    >)
        requires
            self.is_tuple,
        ensures
            match r {
                Ok(s) => spec_name_ok(*self, *types) && s@ == spec_mangled(
                    spec_normalized(self.fields),
                ),
                Err(e) => !spec_name_ok(*self, *types) && e == spec_name_err(*self, *types),
            },
    {
        match &self.fields {
            StructFields::Unnamed(_) => {
                let nfs = self.fields.normalized_fields();
                let parts = Self::mangle_tokens(&nfs, types)?;
                Ok(concat_strings(&parts))
            },
            _ => Err(BridgeError::UnsupportedShape),
        }
    }

    /// The combined client-side name of a tuple: the parenthesized list of
    /// each field's client type token.
    pub fn combine_field_types_swift_name(&self, types: &TypeDeclarations) -> (r: Result<
        String,
        BridgeError,
    >)
        requires
            self.is_tuple,
        ensures
            match r {
                Ok(s) => spec_name_ok(*self, *types) && s@ == spec_combined_swift(
                    spec_normalized(self.fields),
                    *types,
                ),
                Err(e) => !spec_name_ok(*self, *types) && e == spec_name_err(*self, *types),
            },
    {
        match &self.fields {
            StructFields::Unnamed(_) => {
                let nfs = self.fields.normalized_fields();
                let parts = Self::swift_types(&nfs, types)?;
                let joined = join_strings(&parts, ", ");
                let mut s = String::from_str("(");
                s.append(joined.as_str());
                s.append(")");
                proof {
                    assert(s@ =~= spec_combined_swift(spec_normalized(self.fields), *types));
                }
                Ok(s)
            },
            _ => Err(BridgeError::UnsupportedShape),
        }
    }

    /// The type token the client language uses for this struct.
    pub fn to_swift_type(&self, types: &TypeDeclarations) -> (r: Result<String, BridgeError>)
        ensures
            match r {
                Ok(s) => spec_name_ok(*self, *types) && s@ == spec_swift_name_string(
                    *self,
                    *types,
                ),
                Err(e) => !spec_name_ok(*self, *types) && e == spec_name_err(*self, *types),
            },
    {
        self.swift_name_string(types)
    }

    /// The client-facing name: override, declared name, or — for tuples —
    /// the combined field-type list.
    pub fn swift_name_string(&self, types: &TypeDeclarations) -> (r: Result<String, BridgeError>)
        ensures
            match r {
                Ok(s) => spec_name_ok(*self, *types) && s@ == spec_swift_name_string(
                    *self,
                    *types,
                ),
                Err(e) => !spec_name_ok(*self, *types) && e == spec_name_err(*self, *types),
            },
    {
        if self.is_tuple {
            return self.combine_field_types_swift_name(types);
        }
        match &self.swift_name {
            Some(n) => Ok(n.clone()),
            None => Ok(self.name.clone()),
        }
    }

    /// The globally unique, prefixed ABI symbol of this struct.
    pub fn ffi_name_string(&self, prefix: &str, types: &TypeDeclarations) -> (r: Result<
        String,
        BridgeError,
    >)
        ensures
            match r {
                Ok(s) => spec_name_ok(*self, *types) && s@ == spec_ffi_name_string(
                    *self,
                    prefix@,
                    *types,
                ),
                Err(e) => !spec_name_ok(*self, *types) && e == spec_name_err(*self, *types),
            },
    {
        if self.is_tuple {
            let mangled = self.combine_field_types_string(types)?;
            let mut s = String::from_str(prefix);
            s.append("$");
            s.append(self.name.as_str());
            s.append("$");
            s.append(mangled.as_str());
            proof {
                assert(s@ =~= spec_ffi_name_string(*self, prefix@, *types));
            }
            return Ok(s);
        }
        let name = self.swift_name_string(types)?;
        let mut s = String::from_str(prefix);
        s.append("$");
        s.append(name.as_str());
        proof {
            assert(s@ =~= spec_ffi_name_string(*self, prefix@, *types));
        }
        Ok(s)
    }

    /// The ABI type identifier on the native side: prefix glued onto the
    /// declared name.
    pub fn ffi_ident_string(&self, prefix: &str) -> (r: String)
        ensures
            r@ == spec_ffi_ident(*self, prefix@),
    {
        let mut s = String::from_str(prefix);
        s.append(self.name.as_str());
        s
    }

    /// The native-side identifier of the optional-value wrapper type.
    pub fn ffi_option_ident_string(&self, prefix: &str) -> (r: String)
        ensures
            r@ == prefix@ + "Option_"@ + self.name@,
    {
        let mut s = String::from_str(prefix);
        s.append("Option_");
        s.append(self.name.as_str());
        proof {
            assert(s@ =~= prefix@ + "Option_"@ + self.name@);
        }
        s
    }

    /// The ABI symbol of the optional-value wrapper for this struct.
    pub fn ffi_option_name_string(&self, prefix: &str, types: &TypeDeclarations) -> (r: Result<
        String,
        BridgeError,
    >)
        ensures
            match r {
                Ok(s) => spec_name_ok(*self, *types) && s@ == spec_ffi_option_name_string(
                    *self,
                    prefix@,
                    *types,
                ),
                Err(e) => !spec_name_ok(*self, *types) && e == spec_name_err(*self, *types),
            },
    {
        let name = self.swift_name_string(types)?;
        let mut s = String::from_str(prefix);
        s.append("$Option$");
        s.append(name.as_str());
        proof {
            assert(s@ =~= spec_ffi_option_name_string(*self, prefix@, *types));
        }
        Ok(s)
    }

    /// The single possible value of a zero-field, newly declared struct on
    /// each side of the boundary; `None` when the struct has fields or is
    /// declared elsewhere.  Crossing the boundary for such a type
    /// degenerates to "evaluate and discard".
    pub fn only_encoding(&self, types: &TypeDeclarations) -> (r: Result<
        Option<OnlyEncoding>,
        BridgeError,
    >)
        ensures
            match r {
                Ok(enc) => match enc {
                    Some(enc) => spec_only_encoding_applies(*self) && spec_name_ok(*self, *types)
                        && enc.swift@ == spec_swift_name_string(*self, *types) + "()"@ && enc.rust@
                        == self.name@ + spec_empty_wrapper(self.fields),
                    None => !spec_only_encoding_applies(*self),
                },
                Err(e) => spec_only_encoding_applies(*self) && !spec_name_ok(*self, *types) && e
                    == spec_name_err(*self, *types),
            },
    {
        let has_fields = !self.fields.is_empty();
        if has_fields || self.already_declared {
            return Ok(None);
        }
        let swift_name = self.swift_name_string(types)?;
        let mut swift = swift_name;
        swift.append("()");
        let mut rust = self.name.clone();
        match &self.fields {
            StructFields::Named(_) => rust.append(" {}"),
            StructFields::Unnamed(_) => rust.append("()"),
            StructFields::Unit => {},
        }
        proof {
            assert(swift@ =~= spec_swift_name_string(*self, *types) + "()"@);
            assert(rust@ =~= self.name@ + spec_empty_wrapper(self.fields));
        }
        Ok(Some(OnlyEncoding { swift, rust }))
    }

    /// Build the structural declaration for an anonymous tuple shape: the
    /// fields are positional, keyed solely by the ordered type sequence.
    pub fn tuple_from(types_list: &Vec<TypeRef>) -> (r: Option<SharedStruct>)
        ensures
            match r {
                Some(s) => s.is_tuple && s.name@ == "tuple"@ && s.swift_repr
                    == StructSwiftRepr::Structure && s.swift_name is None && !s.already_declared
                    && (s.fields matches StructFields::Unnamed(fs) && fs@.len()
                    == types_list@.len() && (forall|i: int|
                    0 <= i < fs@.len() ==> fs@[i].idx == i && fs@[i].ty == types_list@[i])),
                None => false,
            },
    {
        let mut unnamed_fields: Vec<UnnamedField> = Vec::new();
        let mut i: usize = 0;
        while i < types_list.len()
            invariant
                i <= types_list.len(),
                unnamed_fields@.len() == i,
                forall|j: int|
                    0 <= j < i ==> unnamed_fields@[j].idx == j && unnamed_fields@[j].ty
                        == types_list@[j],
            decreases types_list.len() - i,
        {
            unnamed_fields.push(UnnamedField { idx: i, ty: types_list[i].clone() });
            i = i + 1;
        }
        Some(
            SharedStruct {
                name: String::from_str("tuple"),
                swift_repr: StructSwiftRepr::Structure,
                fields: StructFields::Unnamed(unnamed_fields),
                swift_name: None,
                already_declared: false,
                is_tuple: true,
            },
        )
    }

    /// Whether any field of a tuple owns dynamically allocated text, so a
    /// caller can decide whether a foreign-side destructor call is needed.
    /// Only tuples look at their field types; ordinary named or unit
    /// structs always answer false here (a known limitation of the scheme).
    pub fn contains_owned_string_recursive(&self) -> (r: Result<bool, BridgeError>)
        ensures
            match r {
                Ok(b) => spec_tuple_shape_ok(*self) && b == (self.is_tuple && exists|i: int|
                    0 <= i < spec_normalized(self.fields).len() && crate::ty::spec_owns_text(
                        #[trigger] spec_normalized(self.fields)[i].ty,
                    )),
                Err(e) => !spec_tuple_shape_ok(*self) && e == BridgeError::UnsupportedShape,
            },
    {
        if !self.is_tuple {
            return Ok(false);
        }
        match &self.fields {
            StructFields::Unnamed(_) => {
                let nfs = self.fields.normalized_fields();
                let mut i: usize = 0;
                while i < nfs.len()
                    invariant
                        i <= nfs.len(),
                        self.is_tuple,
                        self.fields matches StructFields::Unnamed(_),
                        nfs@ == spec_normalized(self.fields),
                        forall|j: int|
                            0 <= j < i ==> !crate::ty::spec_owns_text(#[trigger] nfs@[j].ty),
                    decreases nfs.len() - i,
                {
                    if crate::ty::owns_text(&nfs[i].ty) {
                        proof {
                            assert(crate::ty::spec_owns_text(
                                spec_normalized(self.fields)[i as int].ty,
                            ));
                        }
                        return Ok(true);
                    }
                    i = i + 1;
                }
                Ok(false)
            },
            _ => Err(BridgeError::UnsupportedShape),
        }
    }
}

} // verus!
