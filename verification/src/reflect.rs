//! Shared-enum shapes exercised end to end, with reflection entry points.
//!
//! These mirror the declarations a bridge module would synthesize for a
//! handful of representative tagged unions — data-free, positional-payload,
//! named-payload, and opaque-payload — together with the identity
//! "reflect" functions that hand a value across the boundary and straight
//! back.  The data-free enum also carries its ABI representation and the
//! two generated-style conversions, so the placeholder-byte encoding of a
//! payload-free variant can be exercised on real values.

use vstd::prelude::*;

verus! {

/// An opaque host-side type carried through an enum payload.
#[derive(Debug, PartialEq, Eq, Structural)]
pub struct OpaqueRustForEnumTest;

impl OpaqueRustForEnumTest {
    /// The sole value of the opaque test type.
    pub fn new() -> (r: OpaqueRustForEnumTest)
        ensures
            r == OpaqueRustForEnumTest,
    {
        OpaqueRustForEnumTest
    }
}

/// A tagged union with no payload anywhere: copyable, collection-capable.
#[derive(Debug, Copy, Clone, PartialEq, Eq, Structural)]
pub enum EnumWithNoData {
    Variant1,
    Variant2,
}

/// The ABI form of `EnumWithNoData`: every variant occupies one concrete
/// placeholder byte, because a C-compatible tagged union needs each case to
/// have an addressable slot.
#[derive(Debug, Copy, Clone, PartialEq, Eq, Structural)]
pub enum EnumWithNoDataFfi {
    Variant1(u8),
    Variant2(u8),
}

impl EnumWithNoData {
    /// Convert to the ABI form, writing the placeholder byte.
    pub fn into_ffi_repr(self) -> (r: EnumWithNoDataFfi)
        ensures
            self is Variant1 <==> r is Variant1,
            self is Variant2 <==> r is Variant2,
    {
        match self {
            EnumWithNoData::Variant1 => EnumWithNoDataFfi::Variant1(123),
            EnumWithNoData::Variant2 => EnumWithNoDataFfi::Variant2(123),
        }
    }
}

impl EnumWithNoDataFfi {
    /// Convert back to the native form, discarding the placeholder byte.
    pub fn into_rust_repr(self) -> (r: EnumWithNoData)
        ensures
            self is Variant1 <==> r is Variant1,
            self is Variant2 <==> r is Variant2,
    {
        match self {
            EnumWithNoDataFfi::Variant1(_) => EnumWithNoData::Variant1,
            EnumWithNoDataFfi::Variant2(_) => EnumWithNoData::Variant2,
        }
    }
}

/// Crossing the boundary and back reproduces a data-free enum exactly.
pub fn round_trip_enum_with_no_data(v: EnumWithNoData) -> (r: EnumWithNoData)
    ensures
        r == v,
{
    v.into_ffi_repr().into_rust_repr()
}

/// A tagged union with positional payloads of mixed kinds.
#[derive(Debug, PartialEq)]
pub enum EnumWithUnnamedData {
    TwoFields(String, OpaqueRustForEnumTest),
    OneField(i32),
    NoFields,
}

/// A tagged union with named payload fields.
#[derive(Debug, PartialEq)]
pub enum EnumWithNamedData {
    TwoFields { hello: String, data_u8: u8 },
    OneField { data_i32: i32 },
    NoFields,
}

/// A tagged union whose payloads are opaque host types.
#[derive(Debug, PartialEq)]
pub enum EnumWithOpaqueRust {
    Named { data: OpaqueRustForEnumTest },
    Unnamed(OpaqueRustForEnumTest),
}

/// Hand a data-free enum across the boundary and straight back.
pub fn reflect_enum_with_no_data(arg: EnumWithNoData) -> (r: EnumWithNoData)
    ensures
        r == arg,
{
    arg
}

/// Hand a positional-payload enum across the boundary and straight back.
pub fn reflect_enum_with_unnamed_data(arg: EnumWithUnnamedData) -> (r: EnumWithUnnamedData)
    ensures
        r == arg,
{
    arg
}

/// Hand a named-payload enum across the boundary and straight back.
pub fn reflect_enum_with_named_data(arg: EnumWithNamedData) -> (r: EnumWithNamedData)
    ensures
        r == arg,
{
    arg
}

/// Hand an opaque-payload enum across the boundary and straight back.
pub fn reflect_enum_with_opaque_type(arg: EnumWithOpaqueRust) -> (r: EnumWithOpaqueRust)
    ensures
        r == arg,
{
    arg
}

} // verus!
