//! Type references, the declaration registry, and the field-type classifier.
//!
//! A field's declared type is either one of a few scalar/text primitives or a
//! reference to a declaration registered by name.  The classifier turns such a
//! reference into the tokens and conversion fragments that the struct and enum
//! engines splice into their artifacts.  Resolution failure is a deterministic
//! build-time error, never a runtime fallback.

use vstd::prelude::*;
use vstd::string::StrSliceExecFns;

use crate::BridgeError;

verus! {

/// A field's declared type: a primitive, owned text, or a reference to a
/// registered declaration.
#[derive(Debug, PartialEq)]
pub enum TypeRef {
    /// 32-bit signed integer; passes through the boundary unchanged.
    I32,
    /// 8-bit unsigned integer; passes through the boundary unchanged.
    U8,
    /// Boolean; passes through the boundary unchanged.
    Bool,
    /// 64-bit float; passes through the boundary unchanged.
    F64,
    /// Owned, dynamically allocated text; crosses the boundary as a raw
    /// handle to the runtime's string type.
    Text,
    /// A struct or enum declared in the registry, referenced by name.
    Custom(String),
}

/// What the registry records about one declaration: enough to classify a
/// reference to it without re-walking its definition.
#[derive(Clone, Debug, PartialEq)]
pub struct TypeDeclaration {
    /// The declared (native) name.
    pub name: String,
    /// Client-facing name override, if any.
    pub swift_name: Option<String>,
    /// True when the canonical definition lives in another module and only a
    /// qualified reference may be emitted here.
    pub already_declared: bool,
    /// True for a tagged-union declaration, false for a struct.
    pub is_enum: bool,
}

/// The read-only registry of all declarations in a module.
#[derive(Clone, Debug, PartialEq)]
pub struct TypeDeclarations {
    pub decls: Vec<TypeDeclaration>,
}

/// The first declaration named `name`, if any.
pub open spec fn spec_lookup(decls: Seq<TypeDeclaration>, name: Seq<char>) -> Option<
    TypeDeclaration,
>
    decreases decls.len(),
{
    if decls.len() == 0 {
        None
    } else if decls[0].name@ == name {
        Some(decls[0])
    } else {
        spec_lookup(decls.drop_first(), name)
    }
}

/// Whether `t` can be classified against `types`: primitives always, a named
/// reference only when the registry holds a declaration of that name.
pub open spec fn spec_resolves(t: TypeRef, types: TypeDeclarations) -> bool {
    match t {
        TypeRef::Custom(n) => spec_lookup(types.decls@, n@) is Some,
        _ => true,
    }
}

/// The client-facing name of a declaration: the override when present, else
/// the declared name.
pub open spec fn spec_client_name(d: TypeDeclaration) -> Seq<char> {
    match d.swift_name {
        Some(s) => s@,
        None => d.name@,
    }
}

impl TypeDeclarations {
    /// Look a declaration up by name.
    pub fn lookup(&self, name: &String) -> (r: Option<&TypeDeclaration>)
        ensures
            match r {
                Some(d) => spec_lookup(self.decls@, name@) == Some(*d),
                None => spec_lookup(self.decls@, name@) is None,
            },
    {
        let mut i: usize = 0;
        proof {
            assert(self.decls@.skip(0) =~= self.decls@);
        }
        while i < self.decls.len()
            invariant
                i <= self.decls.len(),
                spec_lookup(self.decls@.skip(i as int), name@) == spec_lookup(
                    self.decls@,
                    name@,
                ),
            decreases self.decls.len() - i,
        {
            if self.decls[i].name == *name {
                proof {
                    assert(self.decls@.skip(i as int)[0] == self.decls@[i as int]);
                }
                return Some(&self.decls[i]);
            }
            proof {
                assert(self.decls@.skip(i as int).drop_first() =~= self.decls@.skip(i + 1));
            }
            i = i + 1;
        }
        None
    }

    /// Resolve `t`, returning its declaration for a named reference.
    pub fn resolve(&self, t: &TypeRef) -> (r: Result<Option<&TypeDeclaration>, BridgeError>)
        ensures
            match r {
                Ok(d) => spec_resolves(*t, *self) && (match d {
                    Some(d) => t matches TypeRef::Custom(n) && spec_lookup(self.decls@, n@)
                        == Some(*d),
                    None => !(t matches TypeRef::Custom(_)),
                }),
                Err(e) => !spec_resolves(*t, *self) && e == BridgeError::UnresolvedType,
            },
    {
        match t {
            TypeRef::Custom(n) => match self.lookup(n) {
                Some(d) => Ok(Some(d)),
                None => Err(BridgeError::UnresolvedType),
            },
            _ => Ok(None),
        }
    }
}

/// The native (owning-language) type token for `t`.
pub open spec fn spec_rust_type_path(t: TypeRef) -> Seq<char> {
    match t {
        TypeRef::I32 => "i32"@,
        TypeRef::U8 => "u8"@,
        TypeRef::Bool => "bool"@,
        TypeRef::F64 => "f64"@,
        TypeRef::Text => "String"@,
        TypeRef::Custom(n) => n@,
    }
}

/// The client-language type token for `t`.
pub open spec fn spec_swift_type(t: TypeRef, types: TypeDeclarations) -> Seq<char> {
    match t {
        TypeRef::I32 => "Int32"@,
        TypeRef::U8 => "UInt8"@,
        TypeRef::Bool => "Bool"@,
        TypeRef::F64 => "Double"@,
        TypeRef::Text => "String"@,
        TypeRef::Custom(n) => spec_client_name(spec_lookup(types.decls@, n@)->Some_0),
    }
}

/// The C-level type token for `t`, used in interface declarations.
pub open spec fn spec_c_type(t: TypeRef, prefix: Seq<char>, types: TypeDeclarations) -> Seq<
    char,
> {
    match t {
        TypeRef::I32 => "int32_t"@,
        TypeRef::U8 => "uint8_t"@,
        TypeRef::Bool => "bool"@,
        TypeRef::F64 => "double"@,
        TypeRef::Text => "void*"@,
        TypeRef::Custom(n) => "struct "@ + prefix + "$"@ + n@,
    }
}

/// The ABI-safe (boundary) type token for `t` on the owning-language side.
pub open spec fn spec_ffi_rust_type(
    t: TypeRef,
    prefix: Seq<char>,
    path: Seq<char>,
    types: TypeDeclarations,
) -> Seq<char> {
    match t {
        TypeRef::I32 => "i32"@,
        TypeRef::U8 => "u8"@,
        TypeRef::Bool => "bool"@,
        TypeRef::F64 => "f64"@,
        TypeRef::Text => "*mut "@ + path + "::string::RustString"@,
        TypeRef::Custom(n) => {
            let d = spec_lookup(types.decls@, n@)->Some_0;
            if d.already_declared {
                "<super::"@ + n@ + " as "@ + path + (if d.is_enum {
                    "::SharedEnum>::FfiRepr"@
                } else {
                    "::SharedStruct>::FfiRepr"@
                })
            } else {
                prefix + n@
            }
        },
    }
}

/// The owning-language expression converting `expr` from native to ABI form.
pub open spec fn spec_rust_to_ffi(t: TypeRef, expr: Seq<char>, path: Seq<char>) -> Seq<char> {
    match t {
        TypeRef::Text => path + "::string::RustString("@ + expr + ").box_into_raw()"@,
        TypeRef::Custom(_) => expr + ".into_ffi_repr()"@,
        _ => expr,
    }
}

/// The owning-language expression converting `expr` from ABI back to native
/// form.
pub open spec fn spec_ffi_to_rust(t: TypeRef, expr: Seq<char>, path: Seq<char>) -> Seq<char> {
    match t {
        TypeRef::Text => path + "::string::RustString::reclaim_string("@ + expr + ")"@,
        TypeRef::Custom(_) => expr + ".into_rust_repr()"@,
        _ => expr,
    }
}

/// The client-language expression converting `expr` from client to ABI form.
pub open spec fn spec_swift_to_ffi(t: TypeRef, expr: Seq<char>) -> Seq<char> {
    match t {
        TypeRef::Text => "{ let rustString = "@ + expr
            + ".intoRustString(); rustString.isOwned = false; return rustString.ptr }()"@,
        TypeRef::Custom(_) => expr + ".intoFfiRepr()"@,
        _ => expr,
    }
}

/// The client-language expression converting `expr` from ABI to client form.
pub open spec fn spec_ffi_to_swift(t: TypeRef, expr: Seq<char>) -> Seq<char> {
    match t {
        TypeRef::Text => "RustString(ptr: "@ + expr + ").toString()"@,
        TypeRef::Custom(_) => expr + ".intoSwiftRepr()"@,
        _ => expr,
    }
}

/// Whether a value of type `t` owns dynamically allocated text directly.
/// A named reference answers false: ordinary struct declarations do not
/// recurse into their own fields here (a known limitation of the scheme).
pub open spec fn spec_owns_text(t: TypeRef) -> bool {
    t matches TypeRef::Text
}

/// The native type token for `t`; errors when a named reference is not
/// registered.
pub fn rust_type_path(t: &TypeRef, types: &TypeDeclarations) -> (r: Result<String, BridgeError>)
    ensures
        match r {
            Ok(s) => spec_resolves(*t, *types) && s@ == spec_rust_type_path(*t),
            Err(e) => !spec_resolves(*t, *types) && e == BridgeError::UnresolvedType,
        },
{
    let _ = types.resolve(t)?;
    match t {
        TypeRef::I32 => Ok(String::from_str("i32")),
        TypeRef::U8 => Ok(String::from_str("u8")),
        TypeRef::Bool => Ok(String::from_str("bool")),
        TypeRef::F64 => Ok(String::from_str("f64")),
        TypeRef::Text => Ok(String::from_str("String")),
        TypeRef::Custom(n) => Ok(n.clone()),
    }
}

/// The token `t` contributes to a tuple mangle.  A primitive contributes
/// its bare native token; a declared name is wrapped as
/// `C<length>_<name>`, so that concatenating tokens with no separator stays
/// injective: a bare name could otherwise collide with its neighbours
/// (`AB`+`C` reads the same as `A`+`BC`).
pub open spec fn spec_mangle_token(t: TypeRef) -> Seq<char> {
    match t {
        TypeRef::Custom(n) => "C"@ + crate::text::spec_dec(n@.len()) + "_"@ + n@,
        _ => spec_rust_type_path(t),
    }
}

/// The mangle token of `t`; errors when a named reference is not
/// registered.
pub fn mangle_token(t: &TypeRef, types: &TypeDeclarations) -> (r: Result<String, BridgeError>)
    ensures
        match r {
            Ok(s) => spec_resolves(*t, *types) && s@ == spec_mangle_token(*t),
            Err(e) => !spec_resolves(*t, *types) && e == BridgeError::UnresolvedType,
        },
{
    let _ = types.resolve(t)?;
    match t {
        TypeRef::Custom(n) => {
            let len = n.as_str().unicode_len();
            let d = crate::text::dec_string(len);
            let mut s = String::from_str("C");
            s.append(d.as_str());
            s.append("_");
            s.append(n.as_str());
            proof {
                assert(s@ =~= spec_mangle_token(*t));
            }
            Ok(s)
        },
        _ => Ok(rust_type_path_raw(t)),
    }
}

/// The native type token for `t` as declared, without consulting the
/// registry: a native definition mirrors the declaration verbatim.
pub fn rust_type_path_raw(t: &TypeRef) -> (r: String)
    ensures
        r@ == spec_rust_type_path(*t),
{
    match t {
        TypeRef::I32 => String::from_str("i32"),
        TypeRef::U8 => String::from_str("u8"),
        TypeRef::Bool => String::from_str("bool"),
        TypeRef::F64 => String::from_str("f64"),
        TypeRef::Text => String::from_str("String"),
        TypeRef::Custom(n) => n.clone(),
    }
}

/// The client-language type token for `t`.
pub fn swift_type(t: &TypeRef, types: &TypeDeclarations) -> (r: Result<String, BridgeError>)
    ensures
        match r {
            Ok(s) => spec_resolves(*t, *types) && s@ == spec_swift_type(*t, *types),
            Err(e) => !spec_resolves(*t, *types) && e == BridgeError::UnresolvedType,
        },
{
    let d = types.resolve(t)?;
    match t {
        TypeRef::I32 => Ok(String::from_str("Int32")),
        TypeRef::U8 => Ok(String::from_str("UInt8")),
        TypeRef::Bool => Ok(String::from_str("Bool")),
        TypeRef::F64 => Ok(String::from_str("Double")),
        TypeRef::Text => Ok(String::from_str("String")),
        TypeRef::Custom(_) => match d {
            Some(d) => match &d.swift_name {
                Some(s) => Ok(s.clone()),
                None => Ok(d.name.clone()),
            },
            None => Err(BridgeError::UnresolvedType),
        },
    }
}

/// The C-level type token for `t`.
pub fn c_type(t: &TypeRef, prefix: &str, types: &TypeDeclarations) -> (r: Result<
    String,
    BridgeError,
>)
    ensures
        match r {
            Ok(s) => spec_resolves(*t, *types) && s@ == spec_c_type(*t, prefix@, *types),
            Err(e) => !spec_resolves(*t, *types) && e == BridgeError::UnresolvedType,
        },
{
    let _ = types.resolve(t)?;
    match t {
        TypeRef::I32 => Ok(String::from_str("int32_t")),
        TypeRef::U8 => Ok(String::from_str("uint8_t")),
        TypeRef::Bool => Ok(String::from_str("bool")),
        TypeRef::F64 => Ok(String::from_str("double")),
        TypeRef::Text => Ok(String::from_str("void*")),
        TypeRef::Custom(n) => {
            let mut s = String::from_str("struct ");
            s.append(prefix);
            s.append("$");
            s.append(n.as_str());
            proof {
                assert(s@ =~= spec_c_type(*t, prefix@, *types));
            }
            Ok(s)
        },
    }
}

/// The ABI-safe owning-language type token for `t`.
pub fn ffi_rust_type(t: &TypeRef, prefix: &str, path: &str, types: &TypeDeclarations) -> (r:
    Result<String, BridgeError>)
    ensures
        match r {
            Ok(s) => spec_resolves(*t, *types) && s@ == spec_ffi_rust_type(
                *t,
                prefix@,
                path@,
                *types,
            ),
            Err(e) => !spec_resolves(*t, *types) && e == BridgeError::UnresolvedType,
        },
{
    let d = types.resolve(t)?;
    match t {
        TypeRef::I32 => Ok(String::from_str("i32")),
        TypeRef::U8 => Ok(String::from_str("u8")),
        TypeRef::Bool => Ok(String::from_str("bool")),
        TypeRef::F64 => Ok(String::from_str("f64")),
        TypeRef::Text => {
            let mut s = String::from_str("*mut ");
            s.append(path);
            s.append("::string::RustString");
            proof {
                assert(s@ =~= spec_ffi_rust_type(*t, prefix@, path@, *types));
            }
            Ok(s)
        },
        TypeRef::Custom(n) => match d {
            Some(d) => {
                if d.already_declared {
                    let mut s = String::from_str("<super::");
                    s.append(n.as_str());
                    s.append(" as ");
                    s.append(path);
                    if d.is_enum {
                        s.append("::SharedEnum>::FfiRepr");
                    } else {
                        s.append("::SharedStruct>::FfiRepr");
                    }
                    proof {
                        assert(s@ =~= spec_ffi_rust_type(*t, prefix@, path@, *types));
                    }
                    Ok(s)
                } else {
                    let mut s = String::from_str(prefix);
                    s.append(n.as_str());
                    proof {
                        assert(s@ =~= spec_ffi_rust_type(*t, prefix@, path@, *types));
                    }
                    Ok(s)
                }
            },
            None => Err(BridgeError::UnresolvedType),
        },
    }
}

/// The owning-language native-to-ABI conversion of `expr` at type `t`.
pub fn rust_to_ffi(t: &TypeRef, expr: &str, path: &str, types: &TypeDeclarations) -> (r: Result<
    String,
    BridgeError,
>)
    ensures
        match r {
            Ok(s) => spec_resolves(*t, *types) && s@ == spec_rust_to_ffi(*t, expr@, path@),
            Err(e) => !spec_resolves(*t, *types) && e == BridgeError::UnresolvedType,
        },
{
    let _ = types.resolve(t)?;
    match t {
        TypeRef::Text => {
            let mut s = String::from_str(path);
            s.append("::string::RustString(");
            s.append(expr);
            s.append(").box_into_raw()");
            proof {
                assert(s@ =~= spec_rust_to_ffi(*t, expr@, path@));
            }
            Ok(s)
        },
        TypeRef::Custom(_) => {
            let mut s = String::from_str(expr);
            s.append(".into_ffi_repr()");
            proof {
                assert(s@ =~= spec_rust_to_ffi(*t, expr@, path@));
            }
            Ok(s)
        },
        _ => Ok(String::from_str(expr)),
    }
}

/// The owning-language ABI-to-native conversion of `expr` at type `t`.
pub fn ffi_to_rust(t: &TypeRef, expr: &str, path: &str, types: &TypeDeclarations) -> (r: Result<
    String,
    BridgeError,
>)
    ensures
        match r {
            Ok(s) => spec_resolves(*t, *types) && s@ == spec_ffi_to_rust(*t, expr@, path@),
            Err(e) => !spec_resolves(*t, *types) && e == BridgeError::UnresolvedType,
        },
{
    let _ = types.resolve(t)?;
    match t {
        TypeRef::Text => {
            let mut s = String::from_str(path);
            s.append("::string::RustString::reclaim_string(");
            s.append(expr);
            s.append(")");
            proof {
                assert(s@ =~= spec_ffi_to_rust(*t, expr@, path@));
            }
            Ok(s)
        },
        TypeRef::Custom(_) => {
            let mut s = String::from_str(expr);
            s.append(".into_rust_repr()");
            proof {
                assert(s@ =~= spec_ffi_to_rust(*t, expr@, path@));
            }
            Ok(s)
        },
        _ => Ok(String::from_str(expr)),
    }
}

/// The client-language client-to-ABI conversion of `expr` at type `t`.
pub fn swift_to_ffi(t: &TypeRef, expr: &str, types: &TypeDeclarations) -> (r: Result<
    String,
    BridgeError,
>)
    ensures
        match r {
            Ok(s) => spec_resolves(*t, *types) && s@ == spec_swift_to_ffi(*t, expr@),
            Err(e) => !spec_resolves(*t, *types) && e == BridgeError::UnresolvedType,
        },
{
    let _ = types.resolve(t)?;
    match t {
        TypeRef::Text => {
            let mut s = String::from_str("{ let rustString = ");
            s.append(expr);
            s.append(".intoRustString(); rustString.isOwned = false; return rustString.ptr }()");
            proof {
                assert(s@ =~= spec_swift_to_ffi(*t, expr@));
            }
            Ok(s)
        },
        TypeRef::Custom(_) => {
            let mut s = String::from_str(expr);
            s.append(".intoFfiRepr()");
            proof {
                assert(s@ =~= spec_swift_to_ffi(*t, expr@));
            }
            Ok(s)
        },
        _ => Ok(String::from_str(expr)),
    }
}

/// The client-language ABI-to-client conversion of `expr` at type `t`.
pub fn ffi_to_swift(t: &TypeRef, expr: &str, types: &TypeDeclarations) -> (r: Result<
    String,
    BridgeError,
>)
    ensures
        match r {
            Ok(s) => spec_resolves(*t, *types) && s@ == spec_ffi_to_swift(*t, expr@),
            Err(e) => !spec_resolves(*t, *types) && e == BridgeError::UnresolvedType,
        },
{
    let _ = types.resolve(t)?;
    match t {
        TypeRef::Text => {
            let mut s = String::from_str("RustString(ptr: ");
            s.append(expr);
            s.append(").toString()");
            proof {
                assert(s@ =~= spec_ffi_to_swift(*t, expr@));
            }
            Ok(s)
        },
        TypeRef::Custom(_) => {
            let mut s = String::from_str(expr);
            s.append(".intoSwiftRepr()");
            proof {
                assert(s@ =~= spec_ffi_to_swift(*t, expr@));
            }
            Ok(s)
        },
        _ => Ok(String::from_str(expr)),
    }
}

/// Whether a value of type `t` owns dynamically allocated text directly.
pub fn owns_text(t: &TypeRef) -> (r: bool)
    ensures
        r == spec_owns_text(*t),
{
    match t {
        TypeRef::Text => true,
        _ => false,
    }
}

} // verus!
