//! Field shapes shared by struct declarations and enum variants, and the
//! normalized per-field text fragments both engines splice from.
//!
//! Field order is load-bearing: it fixes the binary layout, so every
//! generator walks the same normalized sequence in declaration order.

use vstd::prelude::*;

use crate::text::spec_dec;
use crate::text::dec_string;
use crate::ty::TypeRef;
use crate::ty::TypeDeclarations;
use crate::ty::spec_resolves;

verus! {

/// One named field: an identifier and a declared type.
#[derive(Debug, PartialEq)]
pub struct NamedField {
    pub name: String,
    pub ty: TypeRef,
}

/// One positional field: its index and a declared type.
#[derive(Debug, PartialEq)]
pub struct UnnamedField {
    pub idx: usize,
    pub ty: TypeRef,
}

/// The three field shapes a declaration or a variant can have.
#[derive(Debug, PartialEq)]
pub enum StructFields {
    Named(Vec<NamedField>),
    Unnamed(Vec<UnnamedField>),
    Unit,
}

/// A shape-independent view of one field, used by every generator loop.
#[derive(Debug, PartialEq)]
pub struct NormField {
    /// The identifier for a named field, nothing for a positional one.
    pub name: Option<String>,
    /// The position of the field in declaration order.
    pub idx: usize,
    pub ty: TypeRef,
}

impl Clone for TypeRef {
    /// An exact copy, so normalized fields carry the declared type unchanged.
    fn clone(&self) -> (r: Self)
        ensures
            r == *self,
    {
        match self {
            TypeRef::I32 => TypeRef::I32,
            TypeRef::U8 => TypeRef::U8,
            TypeRef::Bool => TypeRef::Bool,
            TypeRef::F64 => TypeRef::F64,
            TypeRef::Text => TypeRef::Text,
            TypeRef::Custom(n) => TypeRef::Custom(n.clone()),
        }
    }
}

/// The normalized field sequence of a shape, in declaration order.
pub open spec fn spec_normalized(fields: StructFields) -> Seq<NormField> {
    match fields {
        StructFields::Named(fs) => fs@.map(
            |i: int, f: NamedField| NormField { name: Some(f.name), idx: i as usize, ty: f.ty },
        ),
        StructFields::Unnamed(fs) => fs@.map_values(
            |f: UnnamedField| NormField { name: None, idx: f.idx, ty: f.ty },
        ),
        StructFields::Unit => Seq::<NormField>::empty(),
    }
}

/// Whether every normalized field's type resolves against the registry.
pub open spec fn spec_fields_resolve(fields: Seq<NormField>, types: TypeDeclarations) -> bool {
    forall|i: int| 0 <= i < fields.len() ==> spec_resolves(#[trigger] fields[i].ty, types)
}

/// `"name: "` for a named field, nothing for a positional one.
pub open spec fn spec_maybe_name_colon(nf: NormField) -> Seq<char> {
    match nf.name {
        Some(n) => n@ + ": "@,
        None => Seq::<char>::empty(),
    }
}

/// The projection suffix: `.name` for a named field, `.3` for a positional
/// one.
pub open spec fn spec_accessor(nf: NormField) -> Seq<char> {
    match nf.name {
        Some(n) => "."@ + n@,
        None => "."@ + spec_dec(nf.idx as nat),
    }
}

/// The field's name inside the ABI record: the identifier for a named field,
/// `_3` for a positional one.
pub open spec fn spec_ffi_field_name(nf: NormField) -> Seq<char> {
    match nf.name {
        Some(n) => n@,
        None => "_"@ + spec_dec(nf.idx as nat),
    }
}

impl StructFields {
    /// Whether the shape declares no fields at all.
    pub open spec fn spec_is_empty(&self) -> bool {
        spec_normalized(*self).len() == 0
    }

    /// Whether the shape declares no fields at all.
    pub fn is_empty(&self) -> (r: bool)
        ensures
            r == self.spec_is_empty(),
    {
        match self {
            StructFields::Named(fs) => fs.len() == 0,
            StructFields::Unnamed(fs) => fs.len() == 0,
            StructFields::Unit => true,
        }
    }

    /// The shape-independent field sequence, in declaration order.
    pub fn normalized_fields(&self) -> (r: Vec<NormField>)
        ensures
            r@ == spec_normalized(*self),
    {
        let mut r: Vec<NormField> = Vec::new();
        match self {
            StructFields::Named(fs) => {
                let mut i: usize = 0;
                while i < fs.len()
                    invariant
                        i <= fs.len(),
                        r@ =~= spec_normalized(StructFields::Named(*fs)).take(i as int),
                    decreases fs.len() - i,
                {
                    r.push(
                        NormField { name: Some(fs[i].name.clone()), idx: i, ty: fs[i].ty.clone() },
                    );
                    proof {
                        assert(r@ =~= spec_normalized(StructFields::Named(*fs)).take(i + 1));
                    }
                    i = i + 1;
                }
                proof {
                    assert(spec_normalized(StructFields::Named(*fs)).take(fs@.len() as int)
                        =~= spec_normalized(StructFields::Named(*fs)));
                }
            },
            StructFields::Unnamed(fs) => {
                let mut i: usize = 0;
                while i < fs.len()
                    invariant
                        i <= fs.len(),
                        r@ =~= spec_normalized(StructFields::Unnamed(*fs)).take(i as int),
                    decreases fs.len() - i,
                {
                    r.push(NormField { name: None, idx: fs[i].idx, ty: fs[i].ty.clone() });
                    proof {
                        assert(r@ =~= spec_normalized(StructFields::Unnamed(*fs)).take(i + 1));
                    }
                    i = i + 1;
                }
                proof {
                    assert(spec_normalized(StructFields::Unnamed(*fs)).take(fs@.len() as int)
                        =~= spec_normalized(StructFields::Unnamed(*fs)));
                }
            },
            StructFields::Unit => {},
        }
        r
    }
}

/// `"name: "` for a named field, the empty string for a positional one.
pub fn maybe_name_colon(nf: &NormField) -> (r: String)
    ensures
        r@ == spec_maybe_name_colon(*nf),
{
    match &nf.name {
        Some(n) => {
            let mut s = n.clone();
            s.append(": ");
            proof {
                assert(s@ =~= spec_maybe_name_colon(*nf));
            }
            s
        },
        None => String::new(),
    }
}

/// `base` followed by the field's projection suffix.
pub fn field_accessor(nf: &NormField, base: &str) -> (r: String)
    ensures
        r@ == base@ + spec_accessor(*nf),
{
    let mut s = String::from_str(base);
    s.append(".");
    match &nf.name {
        Some(n) => {
            s.append(n.as_str());
        },
        None => {
            let d = dec_string(nf.idx);
            s.append(d.as_str());
        },
    }
    proof {
        assert(s@ =~= base@ + spec_accessor(*nf));
    }
    s
}

/// The field's name inside the ABI record.
pub fn ffi_field_name(nf: &NormField) -> (r: String)
    ensures
        r@ == spec_ffi_field_name(*nf),
{
    match &nf.name {
        Some(n) => n.clone(),
        None => {
            let mut s = String::from_str("_");
            let d = dec_string(nf.idx);
            s.append(d.as_str());
            proof {
                assert(s@ =~= spec_ffi_field_name(*nf));
            }
            s
        },
    }
}

} // verus!
