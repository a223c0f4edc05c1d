//! The enum engine: one pass that synthesizes every native-side artifact of
//! a tagged union.
//!
//! For a newly declared enum the engine emits the native definition, the
//! ABI-safe definition, the two exhaustive conversion impls (one arm per
//! variant in each direction), the optional-value wrapper — a presence flag
//! beside an uninitialized-until-written payload slot — and, when no variant
//! carries data, the homogeneous-collection support.  An enum declared in
//! another module gets nothing: references use the qualified path instead.

use vstd::prelude::*;

use crate::BridgeError;
use crate::fields::spec_normalized;
use crate::fields::spec_fields_resolve;
use crate::fields::StructFields;
use crate::text::spec_join;
use crate::text::views_of;
use crate::text::join_strings;
use crate::ty::TypeDeclarations;
use crate::shared_enum::EnumVariant;
use crate::shared_enum::SharedEnum;
use crate::shared_enum::spec_native_variant;
use crate::shared_enum::spec_ffi_variant;
use crate::shared_enum::spec_to_ffi_arm;
use crate::shared_enum::spec_to_rust_arm;
use crate::shared_enum::spec_has_data_variants;

verus! {

/// The configuration one generation pass runs under: the global symbol
/// prefix and the qualified path of the runtime support crate, threaded
/// explicitly so the engine stays pure, plus the declaration registry.
pub struct SwiftBridgeModule {
    /// The global prefix put on every ABI-facing symbol.
    pub prefix: String,
    /// The path through which generated code reaches the runtime support
    /// crate.
    pub swift_bridge_path: String,
    /// The read-only registry of all declarations in the module.
    pub types: TypeDeclarations,
}

/// Whether a variant's field shape is implemented (named-field variants are
/// not).
pub open spec fn spec_variant_supported(v: EnumVariant) -> bool {
    !(v.fields matches StructFields::Named(_))
}

/// Whether every variant's field shape is implemented.
pub open spec fn spec_variants_supported(e: SharedEnum) -> bool {
    forall|i: int|
        0 <= i < e.variants@.len() ==> spec_variant_supported(#[trigger] e.variants@[i])
}

/// Whether every variant's payload types resolve against the registry.
pub open spec fn spec_enum_resolves(e: SharedEnum, types: TypeDeclarations) -> bool {
    forall|i: int|
        0 <= i < e.variants@.len() ==> spec_fields_resolve(
            spec_normalized(#[trigger] e.variants@[i].fields),
            types,
        )
}

/// The derive list of the native definition: value-copy capability is
/// granted automatically only when no variant carries payload data.
pub open spec fn spec_enum_derives(e: SharedEnum) -> Seq<char> {
    if spec_has_data_variants(e) {
        "#[derive()] "@
    } else {
        "#[derive(Copy, Clone)] "@
    }
}

/// The optional-value wrapper: a boolean presence flag and a payload slot
/// that stays uninitialized until the flag is set.  The slot is read only
/// under the flag; constructing from an absent value writes no payload.
pub open spec fn spec_option_wrapper(e: SharedEnum, prefix: Seq<char>, path: Seq<char>) -> Seq<
    char,
> {
    let en = e.name@;
    let f = prefix + en;
    let opt = prefix + "Option_"@ + en;
    "#[repr(C)] #[doc(hidden)] pub struct "@ + opt + " { is_some: bool, val: std::mem::MaybeUninit<"@
        + f + ">, } impl "@ + opt
        + " { #[doc(hidden)] #[inline(always)] pub fn into_rust_repr(self) -> Option<"@ + en
        + "> { if self.is_some { Some("@ + path
        + "::read_init(self.val).into_rust_repr()) } else { None } } #[doc(hidden)] #[inline(always)] pub fn from_rust_repr(val: Option<"@
        + en + ">) -> "@ + opt + " { if let Some(val) = val { "@ + opt
        + " { is_some: true, val: std::mem::MaybeUninit::new(val.into_ffi_repr()) } } else { "@
        + opt + " { is_some: false, val: std::mem::MaybeUninit::uninit() } } } }"@
}

/// The homogeneous-collection support emitted for a data-free enum.
pub open spec fn spec_vec_support(e: SharedEnum, prefix: Seq<char>) -> Seq<char> {
    let en = e.name@;
    let f = prefix + en;
    let opt = prefix + "Option_"@ + en;
    let v = prefix + "Vec_"@ + en;
    "#[doc(hidden)] #[repr(C)] pub struct "@ + v + "(pub Vec<"@ + en + ">); impl "@ + v
        + " { #[doc(hidden)] pub fn new() -> Self { "@ + v
        + "(Vec::new()) } #[doc(hidden)] pub fn push(&mut self, val: "@ + f
        + ") { self.0.push(val.into_rust_repr()) } #[doc(hidden)] pub fn pop(&mut self) -> "@ + opt
        + " { "@ + opt
        + "::from_rust_repr(self.0.pop()) } #[doc(hidden)] pub fn len(&self) -> usize { self.0.len() } }"@
}

/// Everything the enum engine emits for one newly declared enum, in order:
/// native definition, ABI definition, the runtime trait link, the two
/// exhaustive conversion impls, the optional-value wrapper, and — for a
/// data-free enum — the collection support.
pub open spec fn spec_generate_shared_enum_tokens(
    e: SharedEnum,
    prefix: Seq<char>,
    path: Seq<char>,
    types: TypeDeclarations,
) -> Seq<char> {
    let en = e.name@;
    let f = prefix + en;
    let natives = spec_join(
        e.variants@.map_values(|v: EnumVariant| spec_native_variant(v)),
        ", "@,
    );
    let ffis = spec_join(
        e.variants@.map_values(|v: EnumVariant| spec_ffi_variant(v, prefix, path, types)),
        ", "@,
    );
    let to_ffi = spec_join(
        e.variants@.map_values(|v: EnumVariant| spec_to_ffi_arm(v, en, f, path)),
        ", "@,
    );
    let to_rust = spec_join(
        e.variants@.map_values(|v: EnumVariant| spec_to_rust_arm(v, en, f, path)),
        ", "@,
    );
    let tail = if spec_has_data_variants(e) {
        Seq::<char>::empty()
    } else {
        " "@ + spec_vec_support(e, prefix)
    };
    spec_enum_derives(e) + "pub enum "@ + en + " { "@ + natives
        + " } #[repr(C)] #[doc(hidden)] pub enum "@ + f + " { "@ + ffis + " } impl "@ + path
        + "::SharedEnum for "@ + en + " { type FfiRepr = "@ + f + "; } impl "@ + en
        + " { #[doc(hidden)] #[inline(always)] pub fn into_ffi_repr(self) -> "@ + f
        + " { match self { "@ + to_ffi + " } } } impl "@ + f
        + " { #[doc(hidden)] #[inline(always)] pub fn into_rust_repr(self) -> "@ + en
        + " { match self { "@ + to_rust + " } } } "@ + spec_option_wrapper(e, prefix, path) + tail
}

/// Every declared variant yields exactly one conversion arm in each
/// direction: the case analyses the engine emits are total by construction,
/// so a variant added without a matching arm cannot build.
pub proof fn lemma_conversion_arms_complete(
    e: SharedEnum,
    enum_name: Seq<char>,
    ffi_name: Seq<char>,
    path: Seq<char>,
)
    ensures
        e.variants@.map_values(
            |v: EnumVariant| spec_to_ffi_arm(v, enum_name, ffi_name, path),
        ).len() == e.variants@.len(),
        e.variants@.map_values(
            |v: EnumVariant| spec_to_rust_arm(v, enum_name, ffi_name, path),
        ).len() == e.variants@.len(),
{
}

/// The native definition entries, one per variant in declaration order.
fn native_variant_decls(variants: &Vec<EnumVariant>) -> (r: Result<Vec<String>, BridgeError>)
    ensures
        match r {
            Ok(v) => (forall|i: int|
                0 <= i < variants@.len() ==> spec_variant_supported(#[trigger] variants@[i]))
                && views_of(v@) == variants@.map_values(|v: EnumVariant| spec_native_variant(v)),
            Err(e) => (exists|i: int|
                0 <= i < variants@.len() && !spec_variant_supported(#[trigger] variants@[i])) && e
                == BridgeError::UnsupportedShape,
        },
{
    let mut parts: Vec<String> = Vec::new();
    let mut i: usize = 0;
    while i < variants.len()
        invariant
            i <= variants.len(),
            views_of(parts@) =~= variants@.take(i as int).map_values(
                |v: EnumVariant| spec_native_variant(v),
            ),
            forall|j: int| 0 <= j < i ==> spec_variant_supported(#[trigger] variants@[j]),
        decreases variants.len() - i,
    {
        let decl = match variants[i].native_variant() {
            Ok(d) => d,
            Err(e) => {
                proof {
                    assert(!spec_variant_supported(variants@[i as int]));
                }
                return Err(e);
            },
        };
        let ghost prev = parts@;
        parts.push(decl);
        proof {
            assert(views_of(prev).len() == i as int);
            assert(prev.len() == i as int);
            assert(views_of(parts@) =~= views_of(prev).push(parts@[i as int]@));
            assert(variants@.take(i + 1).map_values(|v: EnumVariant| spec_native_variant(v))
                =~= variants@.take(i as int).map_values(
                |v: EnumVariant| spec_native_variant(v),
            ).push(spec_native_variant(variants@[i as int])));
        }
        i = i + 1;
    }
    proof {
        assert(variants@.take(variants@.len() as int) =~= variants@);
    }
    Ok(parts)
}

/// The ABI definition entries, one per variant in declaration order.
fn ffi_variant_decls(
    variants: &Vec<EnumVariant>,
    prefix: &str,
    path: &str,
    types: &TypeDeclarations,
) -> (r: Result<Vec<String>, BridgeError>)
    requires
        forall|i: int|
            0 <= i < variants@.len() ==> spec_variant_supported(#[trigger] variants@[i]),
    ensures
        match r {
            Ok(v) => (forall|i: int|
                0 <= i < variants@.len() ==> spec_fields_resolve(
                    spec_normalized(#[trigger] variants@[i].fields),
                    *types,
                )) && views_of(v@) == variants@.map_values(
                |v: EnumVariant| spec_ffi_variant(v, prefix@, path@, *types),
            ),
            Err(e) => (exists|i: int|
                0 <= i < variants@.len() && !spec_fields_resolve(
                    spec_normalized(#[trigger] variants@[i].fields),
                    *types,
                )) && e == BridgeError::UnresolvedType,
        },
{
    let mut parts: Vec<String> = Vec::new();
    let mut i: usize = 0;
    while i < variants.len()
        invariant
            i <= variants.len(),
            forall|k: int|
                0 <= k < variants@.len() ==> spec_variant_supported(#[trigger] variants@[k]),
            views_of(parts@) =~= variants@.take(i as int).map_values(
                |v: EnumVariant| spec_ffi_variant(v, prefix@, path@, *types),
            ),
            forall|j: int|
                0 <= j < i ==> spec_fields_resolve(
                    spec_normalized(#[trigger] variants@[j].fields),
                    *types,
                ),
        decreases variants.len() - i,
    {
        let decl = match variants[i].ffi_variant(prefix, path, types) {
            Ok(d) => d,
            Err(e) => {
                proof {
                    assert(!spec_fields_resolve(
                        spec_normalized(variants@[i as int].fields),
                        *types,
                    ));
                }
                return Err(BridgeError::UnresolvedType);
            },
        };
        let ghost prev = parts@;
        parts.push(decl);
        proof {
            assert(views_of(prev).len() == i as int);
            assert(prev.len() == i as int);
            assert(views_of(parts@) =~= views_of(prev).push(parts@[i as int]@));
            assert(variants@.take(i + 1).map_values(
                |v: EnumVariant| spec_ffi_variant(v, prefix@, path@, *types),
            ) =~= variants@.take(i as int).map_values(
                |v: EnumVariant| spec_ffi_variant(v, prefix@, path@, *types),
            ).push(spec_ffi_variant(variants@[i as int], prefix@, path@, *types)));
        }
        i = i + 1;
    }
    proof {
        assert(variants@.take(variants@.len() as int) =~= variants@);
    }
    Ok(parts)
}

/// The native-to-ABI conversion arms, one per variant.
fn to_ffi_arms(
    variants: &Vec<EnumVariant>,
    enum_name: &str,
    ffi_name: &str,
    path: &str,
    types: &TypeDeclarations,
) -> (r: Vec<String>)
    requires
        forall|i: int|
            0 <= i < variants@.len() ==> spec_variant_supported(#[trigger] variants@[i]),
        forall|i: int|
            0 <= i < variants@.len() ==> spec_fields_resolve(
                spec_normalized(#[trigger] variants@[i].fields),
                *types,
            ),
    ensures
        views_of(r@) == variants@.map_values(
            |v: EnumVariant| spec_to_ffi_arm(v, enum_name@, ffi_name@, path@),
        ),
{
    let mut parts: Vec<String> = Vec::new();
    let mut i: usize = 0;
    while i < variants.len()
        invariant
            i <= variants.len(),
            forall|k: int|
                0 <= k < variants@.len() ==> spec_variant_supported(#[trigger] variants@[k]),
            forall|k: int|
                0 <= k < variants@.len() ==> spec_fields_resolve(
                    spec_normalized(#[trigger] variants@[k].fields),
                    *types,
                ),
            views_of(parts@) =~= variants@.take(i as int).map_values(
                |v: EnumVariant| spec_to_ffi_arm(v, enum_name@, ffi_name@, path@),
            ),
        decreases variants.len() - i,
    {
        let arm = match variants[i].convert_rust_expression_to_ffi_repr(
            enum_name,
            ffi_name,
            path,
            types,
        ) {
            Ok(a) => a,
            Err(_) => {
                proof {
                    assert(spec_variant_supported(variants@[i as int]));
                    assert(spec_fields_resolve(
                        spec_normalized(variants@[i as int].fields),
                        *types,
                    ));
                    assert(false);
                }
                return parts;
            },
        };
        let ghost prev = parts@;
        parts.push(arm);
        proof {
            assert(views_of(prev).len() == i as int);
            assert(prev.len() == i as int);
            assert(views_of(parts@) =~= views_of(prev).push(parts@[i as int]@));
            assert(variants@.take(i + 1).map_values(
                |v: EnumVariant| spec_to_ffi_arm(v, enum_name@, ffi_name@, path@),
            ) =~= variants@.take(i as int).map_values(
                |v: EnumVariant| spec_to_ffi_arm(v, enum_name@, ffi_name@, path@),
            ).push(spec_to_ffi_arm(variants@[i as int], enum_name@, ffi_name@, path@)));
        }
        i = i + 1;
    }
    proof {
        assert(variants@.take(variants@.len() as int) =~= variants@);
    }
    parts
}

/// The ABI-to-native conversion arms, one per variant.
fn to_rust_arms(
    variants: &Vec<EnumVariant>,
    enum_name: &str,
    ffi_name: &str,
    path: &str,
    types: &TypeDeclarations,
) -> (r: Vec<String>)
    requires
        forall|i: int|
            0 <= i < variants@.len() ==> spec_variant_supported(#[trigger] variants@[i]),
        forall|i: int|
            0 <= i < variants@.len() ==> spec_fields_resolve(
                spec_normalized(#[trigger] variants@[i].fields),
                *types,
            ),
    ensures
        views_of(r@) == variants@.map_values(
            |v: EnumVariant| spec_to_rust_arm(v, enum_name@, ffi_name@, path@),
        ),
{
    let mut parts: Vec<String> = Vec::new();
    let mut i: usize = 0;
    while i < variants.len()
        invariant
            i <= variants.len(),
            forall|k: int|
                0 <= k < variants@.len() ==> spec_variant_supported(#[trigger] variants@[k]),
            forall|k: int|
                0 <= k < variants@.len() ==> spec_fields_resolve(
                    spec_normalized(#[trigger] variants@[k].fields),
                    *types,
                ),
            views_of(parts@) =~= variants@.take(i as int).map_values(
                |v: EnumVariant| spec_to_rust_arm(v, enum_name@, ffi_name@, path@),
            ),
        decreases variants.len() - i,
    {
        let arm = match variants[i].convert_ffi_repr_to_rust(enum_name, ffi_name, path, types) {
            Ok(a) => a,
            Err(_) => {
                proof {
                    assert(spec_variant_supported(variants@[i as int]));
                    assert(spec_fields_resolve(
                        spec_normalized(variants@[i as int].fields),
                        *types,
                    ));
                    assert(false);
                }
                return parts;
            },
        };
        let ghost prev = parts@;
        parts.push(arm);
        proof {
            assert(views_of(prev).len() == i as int);
            assert(prev.len() == i as int);
            assert(views_of(parts@) =~= views_of(prev).push(parts@[i as int]@));
            assert(variants@.take(i + 1).map_values(
                |v: EnumVariant| spec_to_rust_arm(v, enum_name@, ffi_name@, path@),
            ) =~= variants@.take(i as int).map_values(
                |v: EnumVariant| spec_to_rust_arm(v, enum_name@, ffi_name@, path@),
            ).push(spec_to_rust_arm(variants@[i as int], enum_name@, ffi_name@, path@)));
        }
        i = i + 1;
    }
    proof {
        assert(variants@.take(variants@.len() as int) =~= variants@);
    }
    parts
}

impl SwiftBridgeModule {
    /// Generate every native-side artifact for a shared enum in one pass;
    /// `None` for an enum declared in another module, whose definitions must
    /// not be duplicated here.
    #[verifier::rlimit(50)]
    pub fn generate_shared_enum_tokens(&self, shared_enum: &SharedEnum) -> (r: Result<
        Option<String>,
        BridgeError,
    >)
        ensures
            match r {
                Ok(out) => match out {
                    Some(s) => !shared_enum.already_declared && spec_variants_supported(
                        *shared_enum,
                    ) && spec_enum_resolves(*shared_enum, self.types) && s@
                        == spec_generate_shared_enum_tokens(
                        *shared_enum,
                        self.prefix@,
                        self.swift_bridge_path@,
                        self.types,
                    ),
                    None => shared_enum.already_declared,
                },
                Err(e) => !shared_enum.already_declared && ((e == BridgeError::UnsupportedShape
                    && !spec_variants_supported(*shared_enum)) || (e
                    == BridgeError::UnresolvedType && spec_variants_supported(*shared_enum)
                    && !spec_enum_resolves(*shared_enum, self.types))),
            },
    {
        if shared_enum.already_declared {
            return Ok(None);
        }
        let prefix_str = self.prefix.as_str();
        let path = self.swift_bridge_path.as_str();
        let natives = native_variant_decls(&shared_enum.variants)?;
        let ffis = ffi_variant_decls(&shared_enum.variants, prefix_str, path, &self.types)?;
        let enum_name = shared_enum.name.clone();
        let mut ffi_name = self.prefix.clone();
        ffi_name.append(enum_name.as_str());
        let to_ffi = to_ffi_arms(
            &shared_enum.variants,
            enum_name.as_str(),
            ffi_name.as_str(),
            path,
            &self.types,
        );
        let to_rust = to_rust_arms(
            &shared_enum.variants,
            enum_name.as_str(),
            ffi_name.as_str(),
            path,
            &self.types,
        );
        let natives_joined = join_strings(&natives, ", ");
        let ffis_joined = join_strings(&ffis, ", ");
        let to_ffi_joined = join_strings(&to_ffi, ", ");
        let to_rust_joined = join_strings(&to_rust, ", ");
        let has_data = shared_enum.has_one_or_more_variants_with_data();

        let mut s: String;
        if has_data {
            s = String::from_str("#[derive()] ");
        } else {
            s = String::from_str("#[derive(Copy, Clone)] ");
        }
        s.append("pub enum ");
        s.append(enum_name.as_str());
        s.append(" { ");
        s.append(natives_joined.as_str());
        s.append(" } #[repr(C)] #[doc(hidden)] pub enum ");
        s.append(ffi_name.as_str());
        s.append(" { ");
        s.append(ffis_joined.as_str());
        s.append(" } impl ");
        s.append(path);
        s.append("::SharedEnum for ");
        s.append(enum_name.as_str());
        s.append(" { type FfiRepr = ");
        s.append(ffi_name.as_str());
        s.append("; } impl ");
        s.append(enum_name.as_str());
        s.append(" { #[doc(hidden)] #[inline(always)] pub fn into_ffi_repr(self) -> ");
        s.append(ffi_name.as_str());
        s.append(" { match self { ");
        s.append(to_ffi_joined.as_str());
        s.append(" } } } impl ");
        s.append(ffi_name.as_str());
        s.append(" { #[doc(hidden)] #[inline(always)] pub fn into_rust_repr(self) -> ");
        s.append(enum_name.as_str());
        s.append(" { match self { ");
        s.append(to_rust_joined.as_str());
        s.append(" } } } ");

        // The optional-value wrapper.
        let opt = shared_enum.ffi_option_ident_string(prefix_str);
        s.append("#[repr(C)] #[doc(hidden)] pub struct ");
        s.append(opt.as_str());
        s.append(" { is_some: bool, val: std::mem::MaybeUninit<");
        s.append(ffi_name.as_str());
        s.append(">, } impl ");
        s.append(opt.as_str());
        s.append(" { #[doc(hidden)] #[inline(always)] pub fn into_rust_repr(self) -> Option<");
        s.append(enum_name.as_str());
        s.append("> { if self.is_some { Some(");
        s.append(path);
        s.append(
            "::read_init(self.val).into_rust_repr()) } else { None } } #[doc(hidden)] #[inline(always)] pub fn from_rust_repr(val: Option<",
        );
        s.append(enum_name.as_str());
        s.append(">) -> ");
        s.append(opt.as_str());
        s.append(" { if let Some(val) = val { ");
        s.append(opt.as_str());
        s.append(" { is_some: true, val: std::mem::MaybeUninit::new(val.into_ffi_repr()) } } else { ");
        s.append(opt.as_str());
        s.append(" { is_some: false, val: std::mem::MaybeUninit::uninit() } } } }");
        proof {
            assert(s@ =~= spec_enum_derives(*shared_enum) + "pub enum "@ + shared_enum.name@
                + " { "@ + natives_joined@ + " } #[repr(C)] #[doc(hidden)] pub enum "@ + ffi_name@
                + " { "@ + ffis_joined@ + " } impl "@ + self.swift_bridge_path@
                + "::SharedEnum for "@ + shared_enum.name@ + " { type FfiRepr = "@ + ffi_name@
                + "; } impl "@ + shared_enum.name@
                + " { #[doc(hidden)] #[inline(always)] pub fn into_ffi_repr(self) -> "@ + ffi_name@
                + " { match self { "@ + to_ffi_joined@ + " } } } impl "@ + ffi_name@
                + " { #[doc(hidden)] #[inline(always)] pub fn into_rust_repr(self) -> "@
                + shared_enum.name@ + " { match self { "@ + to_rust_joined@ + " } } } "@
                + spec_option_wrapper(*shared_enum, self.prefix@, self.swift_bridge_path@));
        }

        let ghost base = s@;
        if !has_data {
            // Homogeneous-collection support exists only for data-free
            // enums: a collection of a payload-carrying union is not
            // supported.
            let mut vec_ident = self.prefix.clone();
            vec_ident.append("Vec_");
            vec_ident.append(enum_name.as_str());
            let mut v = String::from_str("#[doc(hidden)] #[repr(C)] pub struct ");
            v.append(vec_ident.as_str());
            v.append("(pub Vec<");
            v.append(enum_name.as_str());
            v.append(">); impl ");
            v.append(vec_ident.as_str());
            v.append(" { #[doc(hidden)] pub fn new() -> Self { ");
            v.append(vec_ident.as_str());
            v.append("(Vec::new()) } #[doc(hidden)] pub fn push(&mut self, val: ");
            v.append(ffi_name.as_str());
            v.append(") { self.0.push(val.into_rust_repr()) } #[doc(hidden)] pub fn pop(&mut self) -> ");
            v.append(opt.as_str());
            v.append(" { ");
            v.append(opt.as_str());
            v.append(
                "::from_rust_repr(self.0.pop()) } #[doc(hidden)] pub fn len(&self) -> usize { self.0.len() } }",
            );
            proof {
                assert(v@ =~= spec_vec_support(*shared_enum, self.prefix@));
            }
            s.append(" ");
            s.append(v.as_str());
            proof {
                assert(s@ =~= base + " "@ + spec_vec_support(*shared_enum, self.prefix@));
            }
        }
        proof {
            assert(shared_enum.variants@.map_values(
                |v: EnumVariant| spec_native_variant(v),
            ) =~= shared_enum.variants@.map_values(|v: EnumVariant| spec_native_variant(v)));
            assert(natives_joined@ == spec_join(
                shared_enum.variants@.map_values(|v: EnumVariant| spec_native_variant(v)),
                ", "@,
            ));
            assert(shared_enum.variants@.map_values(
                |v: EnumVariant| spec_ffi_variant(v, prefix_str@, path@, self.types),
            ) =~= shared_enum.variants@.map_values(
                |v: EnumVariant| spec_ffi_variant(v, self.prefix@, self.swift_bridge_path@, self.types),
            ));
            assert(ffis_joined@ == spec_join(
                shared_enum.variants@.map_values(
                    |v: EnumVariant| spec_ffi_variant(v, self.prefix@, self.swift_bridge_path@, self.types),
                ),
                ", "@,
            ));
            assert(shared_enum.variants@.map_values(
                |v: EnumVariant| spec_to_ffi_arm(v, enum_name@, ffi_name@, path@),
            ) =~= shared_enum.variants@.map_values(
                |v: EnumVariant| spec_to_ffi_arm(
                    v,
                    shared_enum.name@,
                    self.prefix@ + shared_enum.name@,
                    self.swift_bridge_path@,
                ),
            ));
            assert(shared_enum.variants@.map_values(
                |v: EnumVariant| spec_to_rust_arm(v, enum_name@, ffi_name@, path@),
            ) =~= shared_enum.variants@.map_values(
                |v: EnumVariant| spec_to_rust_arm(
                    v,
                    shared_enum.name@,
                    self.prefix@ + shared_enum.name@,
                    self.swift_bridge_path@,
                ),
            ));
            assert(to_ffi_joined@ == spec_join(
                shared_enum.variants@.map_values(
                    |v: EnumVariant| spec_to_ffi_arm(
                        v,
                        shared_enum.name@,
                        self.prefix@ + shared_enum.name@,
                        self.swift_bridge_path@,
                    ),
                ),
                ", "@,
            ));
            assert(to_rust_joined@ == spec_join(
                shared_enum.variants@.map_values(
                    |v: EnumVariant| spec_to_rust_arm(
                        v,
                        shared_enum.name@,
                        self.prefix@ + shared_enum.name@,
                        self.swift_bridge_path@,
                    ),
                ),
                ", "@,
            ));
            assert(s@ =~= spec_generate_shared_enum_tokens(
                *shared_enum,
                self.prefix@,
                self.swift_bridge_path@,
                self.types,
            ));
        }
        Ok(Some(s))
    }
}

} // verus!
