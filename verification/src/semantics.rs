//! The value-level meaning of the generated conversions.
//!
//! The engines emit text; this module states what that text computes, on a
//! model of the values that cross the boundary, and proves the laws the
//! scheme depends on: converting native→ABI→native reproduces the original
//! value exactly; a zero-field struct and a payload-free variant still
//! occupy a concrete ABI slot (a placeholder), which the reverse conversion
//! discards; and the optional wrapper's payload slot is only ever read
//! under a true presence flag.

use vstd::prelude::*;

verus! {

/// A primitive field value crossing the boundary.
#[derive(Debug, PartialEq)]
pub enum PrimValue {
    I32(i32),
    U8(u8),
    Bool(bool),
    /// Owned text, transferred by handing the allocation across.
    Text(String),
    /// An opaque host value, transferred as a raw handle.
    Opaque(u64),
}

/// The ABI-side form of a primitive field value: scalars pass through
/// unchanged, text crosses as an owned handle.
#[derive(Debug, PartialEq)]
pub enum AbiPrimValue {
    I32(i32),
    U8(u8),
    Bool(bool),
    TextHandle(String),
    OpaqueHandle(u64),
}

/// The ABI form of one native field value.
pub open spec fn spec_prim_to_abi(v: PrimValue) -> AbiPrimValue {
    match v {
        PrimValue::I32(x) => AbiPrimValue::I32(x),
        PrimValue::U8(x) => AbiPrimValue::U8(x),
        PrimValue::Bool(x) => AbiPrimValue::Bool(x),
        PrimValue::Text(s) => AbiPrimValue::TextHandle(s),
        PrimValue::Opaque(h) => AbiPrimValue::OpaqueHandle(h),
    }
}

/// The native form recovered from one ABI field value.
pub open spec fn spec_abi_to_prim(v: AbiPrimValue) -> PrimValue {
    match v {
        AbiPrimValue::I32(x) => PrimValue::I32(x),
        AbiPrimValue::U8(x) => PrimValue::U8(x),
        AbiPrimValue::Bool(x) => PrimValue::Bool(x),
        AbiPrimValue::TextHandle(s) => PrimValue::Text(s),
        AbiPrimValue::OpaqueHandle(h) => PrimValue::Opaque(h),
    }
}

/// One field survives the round trip unchanged.
pub proof fn lemma_prim_round_trip(v: PrimValue)
    ensures
        spec_abi_to_prim(spec_prim_to_abi(v)) == v,
{
}

/// Round trip, for every struct or payload field list and arbitrary field
/// values: projecting every field to its ABI form and back reproduces the
/// original sequence exactly.
pub proof fn lemma_value_round_trip(fields: Seq<PrimValue>)
    ensures
        fields.map_values(|v: PrimValue| spec_prim_to_abi(v)).map_values(
            |v: AbiPrimValue| spec_abi_to_prim(v),
        ) == fields,
{
    assert(fields.map_values(|v: PrimValue| spec_prim_to_abi(v)).map_values(
        |v: AbiPrimValue| spec_abi_to_prim(v),
    ) =~= fields);
}

/// The ABI value of a struct: real fields when there are any, otherwise the
/// single placeholder that keeps the record's size nonzero.
#[derive(Debug, PartialEq)]
pub enum AbiStructValue {
    Placeholder(u8),
    Fields(Vec<AbiPrimValue>),
}

/// A native enum value: the variant tag and its payload fields.
#[derive(Debug, PartialEq)]
pub struct NativeEnumValue {
    pub variant: usize,
    pub fields: Vec<PrimValue>,
}

/// An ABI enum value: the same tag, and a payload slot that is always
/// present — a payload-free variant carries one placeholder byte.
#[derive(Debug, PartialEq)]
pub struct AbiEnumValue {
    pub variant: usize,
    pub payload: AbiStructValue,
}

/// One native field value converted to ABI form.
fn prim_to_abi(v: &PrimValue) -> (r: AbiPrimValue)
    ensures
        r == spec_prim_to_abi(*v),
{
    match v {
        PrimValue::I32(x) => AbiPrimValue::I32(*x),
        PrimValue::U8(x) => AbiPrimValue::U8(*x),
        PrimValue::Bool(x) => AbiPrimValue::Bool(*x),
        PrimValue::Text(s) => AbiPrimValue::TextHandle(s.clone()),
        PrimValue::Opaque(h) => AbiPrimValue::OpaqueHandle(*h),
    }
}

/// One ABI field value converted back to native form.
fn abi_to_prim(v: &AbiPrimValue) -> (r: PrimValue)
    ensures
        r == spec_abi_to_prim(*v),
{
    match v {
        AbiPrimValue::I32(x) => PrimValue::I32(*x),
        AbiPrimValue::U8(x) => PrimValue::U8(*x),
        AbiPrimValue::Bool(x) => PrimValue::Bool(*x),
        AbiPrimValue::TextHandle(s) => PrimValue::Text(s.clone()),
        AbiPrimValue::OpaqueHandle(h) => PrimValue::Opaque(*h),
    }
}

/// Every field converted to ABI form, in order.
fn fields_to_abi(fields: &Vec<PrimValue>) -> (r: Vec<AbiPrimValue>)
    ensures
        r@ == fields@.map_values(|v: PrimValue| spec_prim_to_abi(v)),
{
    let mut r: Vec<AbiPrimValue> = Vec::new();
    let mut i: usize = 0;
    while i < fields.len()
        invariant
            i <= fields.len(),
            r@ =~= fields@.take(i as int).map_values(|v: PrimValue| spec_prim_to_abi(v)),
        decreases fields.len() - i,
    {
        r.push(prim_to_abi(&fields[i]));
        proof {
            assert(r@ =~= fields@.take(i + 1).map_values(|v: PrimValue| spec_prim_to_abi(v)));
        }
        i = i + 1;
    }
    proof {
        assert(fields@.take(fields@.len() as int) =~= fields@);
    }
    r
}

/// Every ABI field converted back to native form, in order.
fn fields_from_abi(fields: &Vec<AbiPrimValue>) -> (r: Vec<PrimValue>)
    ensures
        r@ == fields@.map_values(|v: AbiPrimValue| spec_abi_to_prim(v)),
{
    let mut r: Vec<PrimValue> = Vec::new();
    let mut i: usize = 0;
    while i < fields.len()
        invariant
            i <= fields.len(),
            r@ =~= fields@.take(i as int).map_values(|v: AbiPrimValue| spec_abi_to_prim(v)),
        decreases fields.len() - i,
    {
        r.push(abi_to_prim(&fields[i]));
        proof {
            assert(r@ =~= fields@.take(i + 1).map_values(|v: AbiPrimValue| spec_abi_to_prim(v)));
        }
        i = i + 1;
    }
    proof {
        assert(fields@.take(fields@.len() as int) =~= fields@);
    }
    r
}

/// A struct value converted to its ABI form: a zero-field struct becomes
/// the placeholder (its ABI record has nonzero size), any other struct has
/// every field projected in order.
pub fn struct_to_abi(fields: &Vec<PrimValue>) -> (r: AbiStructValue)
    ensures
        match r {
            AbiStructValue::Placeholder(b) => fields@.len() == 0 && b == 123,
            AbiStructValue::Fields(a) => fields@.len() > 0 && a@ == fields@.map_values(
                |v: PrimValue| spec_prim_to_abi(v),
            ),
        },
{
    if fields.len() == 0 {
        AbiStructValue::Placeholder(123)
    } else {
        AbiStructValue::Fields(fields_to_abi(fields))
    }
}

/// An ABI struct value converted back to native form: the placeholder is
/// discarded (the zero-field struct has only one inhabitant), fields are
/// projected back in order.
pub fn abi_to_struct(v: &AbiStructValue) -> (r: Vec<PrimValue>)
    ensures
        match v {
            AbiStructValue::Placeholder(_) => r@.len() == 0,
            AbiStructValue::Fields(a) => r@ == a@.map_values(|x: AbiPrimValue| spec_abi_to_prim(x)),
        },
{
    match v {
        AbiStructValue::Placeholder(_) => Vec::new(),
        AbiStructValue::Fields(a) => fields_from_abi(a),
    }
}

/// Round trip at the struct level: native→ABI→native reproduces the
/// original field values exactly, placeholder case included.
pub fn round_trip_struct_value(fields: &Vec<PrimValue>) -> (r: Vec<PrimValue>)
    ensures
        r@ == fields@,
{
    let abi = struct_to_abi(fields);
    let back = abi_to_struct(&abi);
    proof {
        lemma_value_round_trip(fields@);
    }
    back
}

/// An enum value converted to its ABI form: same tag; a payload-free
/// variant gets the placeholder byte so its slot is concrete and
/// addressable.
pub fn enum_to_abi(v: &NativeEnumValue) -> (r: AbiEnumValue)
    ensures
        r.variant == v.variant,
        match r.payload {
            AbiStructValue::Placeholder(b) => v.fields@.len() == 0 && b == 123,
            AbiStructValue::Fields(a) => v.fields@.len() > 0 && a@ == v.fields@.map_values(
                |x: PrimValue| spec_prim_to_abi(x),
            ),
        },
{
    AbiEnumValue { variant: v.variant, payload: struct_to_abi(&v.fields) }
}

/// An ABI enum value converted back: same tag; the placeholder byte of a
/// payload-free variant is discarded.
pub fn abi_to_enum(v: &AbiEnumValue) -> (r: NativeEnumValue)
    ensures
        r.variant == v.variant,
        match v.payload {
            AbiStructValue::Placeholder(_) => r.fields@.len() == 0,
            AbiStructValue::Fields(a) => r.fields@ == a@.map_values(
                |x: AbiPrimValue| spec_abi_to_prim(x),
            ),
        },
{
    NativeEnumValue { variant: v.variant, fields: abi_to_struct(&v.payload) }
}

/// Round trip at the enum level: tag and payload survive exactly.
pub fn round_trip_enum_value(v: &NativeEnumValue) -> (r: NativeEnumValue)
    ensures
        r.variant == v.variant,
        r.fields@ == v.fields@,
{
    let abi = enum_to_abi(v);
    let back = abi_to_enum(&abi);
    proof {
        lemma_value_round_trip(v.fields@);
    }
    back
}

/// The optional-value wrapper: a presence flag beside a payload slot.  The
/// slot models the uninitialized-until-written memory of the generated
/// wrapper: `None` stands for bytes that were never written.
#[derive(Debug, PartialEq)]
pub struct OptionAbiEnumValue {
    pub is_some: bool,
    pub val: Option<AbiEnumValue>,
}

impl OptionAbiEnumValue {
    /// The slot is initialized exactly when the flag says so; reading it
    /// under a false flag would interpret unwritten bytes and must never
    /// happen.
    pub open spec fn wf(&self) -> bool {
        self.is_some <==> self.val is Some
    }

    /// Construct from an optional native value.  An absent value writes the
    /// flag only: no legitimate payload is required, and none is stored.
    pub fn from_rust_repr(v: Option<NativeEnumValue>) -> (r: OptionAbiEnumValue)
        ensures
            r.wf(),
            r.is_some == (v is Some),
            match v {
                Some(nv) => r.val matches Some(av) && av.variant == nv.variant && (match av
                    .payload {
                    AbiStructValue::Placeholder(b) => nv.fields@.len() == 0 && b == 123,
                    AbiStructValue::Fields(a) => nv.fields@.len() > 0 && a@ == nv.fields@
                        .map_values(|x: PrimValue| spec_prim_to_abi(x)),
                }),
                None => r.val is None,
            },
    {
        match v {
            Some(nv) => OptionAbiEnumValue { is_some: true, val: Some(enum_to_abi(&nv)) },
            None => OptionAbiEnumValue { is_some: false, val: None },
        }
    }

    /// Destructure back to an optional native value.  The flag is checked
    /// first; the payload slot is read only when the flag is true.
    pub fn into_rust_repr(self) -> (r: Option<NativeEnumValue>)
        requires
            self.wf(),
        ensures
            r is Some <==> self.is_some,
            match r {
                Some(nv) => self.val matches Some(av) && nv.variant == av.variant && (match av
                    .payload {
                    AbiStructValue::Placeholder(_) => nv.fields@.len() == 0,
                    AbiStructValue::Fields(a) => nv.fields@ == a@.map_values(
                        |x: AbiPrimValue| spec_abi_to_prim(x),
                    ),
                }),
                None => !self.is_some,
            },
    {
        if self.is_some {
            match self.val {
                Some(av) => Some(abi_to_enum(&av)),
                None => None,
            }
        } else {
            None
        }
    }
}

/// Round trip through the optional wrapper: presence and payload survive
/// exactly, and the absent case stores and reads no payload at all.
pub fn round_trip_option_value(v: Option<NativeEnumValue>) -> (r: Option<NativeEnumValue>)
    ensures
        r is Some <==> v is Some,
        match (v, r) {
            (Some(nv), Some(rv)) => rv.variant == nv.variant && rv.fields@ == nv.fields@,
            (None, None) => true,
            _ => false,
        },
{
    let ghost old_v = v;
    let wrapped = OptionAbiEnumValue::from_rust_repr(v);
    let back = wrapped.into_rust_repr();
    proof {
        if old_v is Some {
            lemma_value_round_trip(old_v->Some_0.fields@);
        }
    }
    back
}

} // verus!
