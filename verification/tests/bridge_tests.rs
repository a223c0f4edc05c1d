use bridge_ir::fields::NamedField;
use bridge_ir::fields::StructFields;
use bridge_ir::fields::UnnamedField;
use bridge_ir::shared_enum::EnumVariant;
use bridge_ir::shared_enum::SharedEnum;
use bridge_ir::enum_codegen::SwiftBridgeModule;
use bridge_ir::shared_struct::SharedStruct;
use bridge_ir::shared_struct::StructSwiftRepr;
use bridge_ir::ty::TypeDeclaration;
use bridge_ir::ty::TypeDeclarations;
use bridge_ir::ty::TypeRef;
use bridge_ir::BridgeError;
use bridge_ir::reflect::EnumWithNamedData;
use bridge_ir::reflect::EnumWithNoData;
use bridge_ir::reflect::EnumWithNoDataFfi;
use bridge_ir::reflect::EnumWithOpaqueRust;
use bridge_ir::reflect::EnumWithUnnamedData;
use bridge_ir::reflect::OpaqueRustForEnumTest;
use bridge_ir::reflect::reflect_enum_with_named_data;
use bridge_ir::reflect::reflect_enum_with_no_data;
use bridge_ir::reflect::reflect_enum_with_opaque_type;
use bridge_ir::reflect::reflect_enum_with_unnamed_data;
use bridge_ir::reflect::round_trip_enum_with_no_data;
use bridge_ir::semantics::abi_to_enum;
use bridge_ir::semantics::abi_to_struct;
use bridge_ir::semantics::enum_to_abi;
use bridge_ir::semantics::round_trip_enum_value;
use bridge_ir::semantics::round_trip_option_value;
use bridge_ir::semantics::round_trip_struct_value;
use bridge_ir::semantics::struct_to_abi;
use bridge_ir::semantics::AbiStructValue;
use bridge_ir::semantics::NativeEnumValue;
use bridge_ir::semantics::OptionAbiEnumValue;
use bridge_ir::semantics::PrimValue;

const PREFIX: &str = "__swift_bridge__";
const PATH: &str = "swift_bridge";

fn empty_types() -> TypeDeclarations {
    TypeDeclarations { decls: Vec::new() }
}

fn named_struct(name: &str, fields: Vec<(&str, TypeRef)>) -> SharedStruct {
    SharedStruct {
        name: name.to_string(),
        swift_repr: StructSwiftRepr::Structure,
        fields: StructFields::Named(
            fields
                .into_iter()
                .map(|(n, ty)| NamedField { name: n.to_string(), ty })
                .collect(),
        ),
        swift_name: None,
        already_declared: false,
        is_tuple: false,
    }
}

fn tuple_struct(tys: Vec<TypeRef>) -> SharedStruct {
    SharedStruct::tuple_from(&tys).unwrap()
}

fn bridge_module(decls: Vec<TypeDeclaration>) -> SwiftBridgeModule {
    SwiftBridgeModule {
        prefix: PREFIX.to_string(),
        swift_bridge_path: PATH.to_string(),
        types: TypeDeclarations { decls },
    }
}

// Scenario: a value-semantics struct with two scalar fields gets an ABI
// struct with two real fields and a two-argument client constructor.
#[test]
fn point_into_ffi_repr_method() {
    let point = named_struct("Point", vec![("x", TypeRef::I32), ("y", TypeRef::I32)]);
    let types = empty_types();
    let method = point
        .generate_into_ffi_repr_method("some_point", PREFIX, PATH, &types)
        .unwrap();
    assert_eq!(
        method,
        "impl Point { #[doc(hidden)] #[inline(always)] pub fn into_ffi_repr(self) -> \
         __swift_bridge__Point { { let val = some_point; __swift_bridge__Point \
         { x: val.x, y: val.y } } } }"
    );
    assert!(!method.contains("_private"));
}

#[test]
fn point_ffi_name_and_client_constructor() {
    let point = named_struct("Point", vec![("x", TypeRef::I32), ("y", TypeRef::I32)]);
    let types = empty_types();
    assert_eq!(point.ffi_name_string(PREFIX, &types).unwrap(), "__swift_bridge__$Point");
    let to_swift = point.convert_ffi_expression_to_swift("expr", &types).unwrap();
    assert_eq!(to_swift, "{ let val = expr; return Point(x: val.x, y: val.y); }()");
}

#[test]
fn point_convert_ffi_repr_to_rust() {
    let point = named_struct("Point", vec![("x", TypeRef::I32), ("y", TypeRef::I32)]);
    let types = empty_types();
    let conv = point.convert_ffi_repr_to_rust("v", PATH, &types).unwrap();
    assert_eq!(conv, "{ let val = v; Point { x: val.x, y: val.y } }");
}

#[test]
fn point_swift_to_ffi_repr() {
    let point = named_struct("Point", vec![("x", TypeRef::I32), ("y", TypeRef::I32)]);
    let types = empty_types();
    let conv = point.convert_swift_to_ffi_repr("p", PREFIX, &types).unwrap();
    assert_eq!(
        conv,
        "{ let val = p; return __swift_bridge__$Point(x: val.x, y: val.y); }()"
    );
}

// Scenario: point values round-trip exactly at the value level.
#[test]
fn point_value_round_trip() {
    let fields = vec![PrimValue::I32(3), PrimValue::I32(4)];
    let back = round_trip_struct_value(&fields);
    assert_eq!(back, vec![PrimValue::I32(3), PrimValue::I32(4)]);
}

// Scenario: a tuple of a scalar and owned text embeds both type tags in its
// symbol; the scalar passes through, the text goes down the owned-text
// path.
#[test]
fn tuple_symbol_embeds_type_tags() {
    let t = tuple_struct(vec![TypeRef::I32, TypeRef::Text]);
    let types = empty_types();
    assert_eq!(t.combine_field_types_string(&types).unwrap(), "i32String");
    assert_eq!(
        t.ffi_name_string(PREFIX, &types).unwrap(),
        "__swift_bridge__$tuple$i32String"
    );
}

#[test]
fn tuple_symbol_idempotent_and_distinct() {
    let types = empty_types();
    let a1 = tuple_struct(vec![TypeRef::I32, TypeRef::Text]);
    let a2 = tuple_struct(vec![TypeRef::I32, TypeRef::Text]);
    let b = tuple_struct(vec![TypeRef::Text, TypeRef::I32]);
    let s1 = a1.ffi_name_string(PREFIX, &types).unwrap();
    let s2 = a2.ffi_name_string(PREFIX, &types).unwrap();
    let s3 = b.ffi_name_string(PREFIX, &types).unwrap();
    assert_eq!(s1, s2);
    assert_ne!(s1, s3);
}

#[test]
fn tuple_custom_rust_ffi_type() {
    let t = tuple_struct(vec![TypeRef::I32, TypeRef::Text]);
    let types = empty_types();
    let def = t.generate_custom_rust_ffi_type(PREFIX, PATH, &types).unwrap().unwrap();
    assert_eq!(
        def,
        "#[repr(C)] #[doc(hidden)] pub struct __swift_bridge__tuple_i32String\
         (i32, *mut swift_bridge::string::RustString);"
    );
}

#[test]
fn tuple_ffi_to_swift_paths() {
    let t = tuple_struct(vec![TypeRef::I32, TypeRef::Text]);
    let types = empty_types();
    let conv = t.convert_ffi_expression_to_swift_type("expr", &types).unwrap();
    assert_eq!(
        conv,
        "let val = expr; return (val._0, RustString(ptr: val._1).toString());"
    );
}

#[test]
fn tuple_swift_to_ffi_paths() {
    let t = tuple_struct(vec![TypeRef::I32, TypeRef::Text]);
    let types = empty_types();
    let conv = t.convert_swift_expression_to_ffi_type("expr", PREFIX, &types).unwrap();
    assert_eq!(
        conv,
        "__swift_bridge__$tuple$i32String(_0: expr.0, _1: { let rustString = \
         expr.1.intoRustString(); rustString.isOwned = false; return rustString.ptr }())"
    );
}

#[test]
fn tuple_c_typedef() {
    let t = tuple_struct(vec![TypeRef::I32, TypeRef::Text]);
    let types = empty_types();
    let decl = t.generate_custom_c_ffi_type(PREFIX, &types).unwrap().unwrap();
    assert_eq!(
        decl,
        "typedef struct __swift_bridge__$tuple$i32String { int32_t _0; void* _1; } \
         __swift_bridge__$tuple$i32String;"
    );
}

#[test]
fn tuple_positional_rebuild_and_rust_to_ffi() {
    let t = tuple_struct(vec![TypeRef::I32, TypeRef::Text]);
    let types = empty_types();
    assert_eq!(t.convert_ffi_expression_to_rust_type("v"), "(v.0, v.1)");
    let conv = t.convert_rust_expression_to_ffi_type("e", PREFIX, &types).unwrap();
    assert_eq!(
        conv,
        "let val = e; __swift_bridge__tuple_i32String(val.0, val.1)"
    );
}

#[test]
fn tuple_owned_text_query() {
    let with_text = tuple_struct(vec![TypeRef::I32, TypeRef::Text]);
    let without = tuple_struct(vec![TypeRef::I32, TypeRef::Bool]);
    assert!(with_text.contains_owned_string_recursive().unwrap());
    assert!(!without.contains_owned_string_recursive().unwrap());
    // Ordinary named structs answer false regardless of contents.
    let named = named_struct("S", vec![("t", TypeRef::Text)]);
    assert!(!named.contains_owned_string_recursive().unwrap());
}

// Scenario: a data-free enum derives copy capability, every ABI variant
// carries one placeholder byte, and collection support is generated.
#[test]
fn data_free_enum_gets_copy_and_collection_support() {
    let color = SharedEnum {
        name: "Color".to_string(),
        variants: vec![
            EnumVariant { name: "Red".to_string(), fields: StructFields::Unit },
            EnumVariant { name: "Green".to_string(), fields: StructFields::Unit },
            EnumVariant { name: "Blue".to_string(), fields: StructFields::Unit },
        ],
        already_declared: false,
    };
    let module = bridge_module(Vec::new());
    let out = module.generate_shared_enum_tokens(&color).unwrap().unwrap();
    assert!(out.starts_with("#[derive(Copy, Clone)] pub enum Color { Red, Green, Blue }"));
    assert!(out.contains("pub enum __swift_bridge__Color { Red(u8), Green(u8), Blue(u8) }"));
    assert!(out.contains("Color::Red => __swift_bridge__Color::Red(123)"));
    assert!(out.contains("__swift_bridge__Color::Red(_) => Color::Red"));
    assert!(out.contains("pub struct __swift_bridge__Vec_Color(pub Vec<Color>);"));
    assert!(out.contains("pub struct __swift_bridge__Option_Color"));
}

// Scenario: a data-bearing enum gets no copy capability and no collection
// support; its optional wrapper holds one payload slot.
#[test]
fn data_bearing_enum_loses_copy_and_collection_support() {
    let shape = SharedEnum {
        name: "Shape".to_string(),
        variants: vec![
            EnumVariant {
                name: "Circle".to_string(),
                fields: StructFields::Unnamed(vec![UnnamedField { idx: 0, ty: TypeRef::F64 }]),
            },
            EnumVariant {
                name: "Named".to_string(),
                fields: StructFields::Unnamed(vec![UnnamedField { idx: 0, ty: TypeRef::Text }]),
            },
        ],
        already_declared: false,
    };
    let module = bridge_module(Vec::new());
    let out = module.generate_shared_enum_tokens(&shape).unwrap().unwrap();
    assert!(out.starts_with("#[derive()] pub enum Shape { Circle(f64), Named(String) }"));
    assert!(!out.contains("Copy"));
    assert!(!out.contains("Vec_Shape"));
    assert!(out.contains(
        "pub struct __swift_bridge__Option_Shape { is_some: bool, val: \
         std::mem::MaybeUninit<__swift_bridge__Shape>, }"
    ));
    assert!(out.contains(
        "Shape::Circle(x0) => __swift_bridge__Shape::Circle(x0)"
    ));
    assert!(out.contains(
        "Shape::Named(x0) => __swift_bridge__Shape::Named\
         (swift_bridge::string::RustString(x0).box_into_raw())"
    ));
}

#[test]
fn single_variant_enum_full_text() {
    let e = SharedEnum {
        name: "E1".to_string(),
        variants: vec![EnumVariant { name: "A".to_string(), fields: StructFields::Unit }],
        already_declared: false,
    };
    let module = bridge_module(Vec::new());
    let out = module.generate_shared_enum_tokens(&e).unwrap().unwrap();
    let expected = String::new()
        + "#[derive(Copy, Clone)] pub enum E1 { A } "
        + "#[repr(C)] #[doc(hidden)] pub enum __swift_bridge__E1 { A(u8) } "
        + "impl swift_bridge::SharedEnum for E1 { type FfiRepr = __swift_bridge__E1; } "
        + "impl E1 { #[doc(hidden)] #[inline(always)] pub fn into_ffi_repr(self) -> "
        + "__swift_bridge__E1 { match self { E1::A => __swift_bridge__E1::A(123) } } } "
        + "impl __swift_bridge__E1 { #[doc(hidden)] #[inline(always)] pub fn into_rust_repr"
        + "(self) -> E1 { match self { __swift_bridge__E1::A(_) => E1::A } } } "
        + "#[repr(C)] #[doc(hidden)] pub struct __swift_bridge__Option_E1 "
        + "{ is_some: bool, val: std::mem::MaybeUninit<__swift_bridge__E1>, } "
        + "impl __swift_bridge__Option_E1 { #[doc(hidden)] #[inline(always)] "
        + "pub fn into_rust_repr(self) -> Option<E1> { if self.is_some { "
        + "Some(swift_bridge::read_init(self.val).into_rust_repr()) } else { None } } "
        + "#[doc(hidden)] #[inline(always)] pub fn from_rust_repr(val: Option<E1>) -> "
        + "__swift_bridge__Option_E1 { if let Some(val) = val { __swift_bridge__Option_E1 "
        + "{ is_some: true, val: std::mem::MaybeUninit::new(val.into_ffi_repr()) } } else { "
        + "__swift_bridge__Option_E1 { is_some: false, val: std::mem::MaybeUninit::uninit() } } } } "
        + "#[doc(hidden)] #[repr(C)] pub struct __swift_bridge__Vec_E1(pub Vec<E1>); "
        + "impl __swift_bridge__Vec_E1 { #[doc(hidden)] pub fn new() -> Self { "
        + "__swift_bridge__Vec_E1(Vec::new()) } #[doc(hidden)] pub fn push(&mut self, val: "
        + "__swift_bridge__E1) { self.0.push(val.into_rust_repr()) } #[doc(hidden)] "
        + "pub fn pop(&mut self) -> __swift_bridge__Option_E1 { "
        + "__swift_bridge__Option_E1::from_rust_repr(self.0.pop()) } "
        + "#[doc(hidden)] pub fn len(&self) -> usize { self.0.len() } }";
    assert_eq!(out, expected);
}

// Scenario: a zero-field struct has exactly one inhabitant; conversion
// evaluates the source for effects and discards it, and the ABI record
// keeps a placeholder so its size is nonzero.
#[test]
fn zero_field_struct_only_encoding() {
    let empty = named_struct("Empty", vec![]);
    let types = empty_types();
    let only = empty.only_encoding(&types).unwrap().unwrap();
    assert_eq!(only.swift, "Empty()");
    assert_eq!(only.rust, "Empty {}");
    let conv = empty.convert_rust_expression_to_ffi_type("expr", PREFIX, &types).unwrap();
    assert_eq!(conv, "{ expr; }");
    let sconv = empty.convert_swift_expression_to_ffi_type("expr", PREFIX, &types).unwrap();
    assert_eq!(sconv, "{ let _ = expr; }()");
    let method = empty.generate_into_ffi_repr_method("e", PREFIX, PATH, &types).unwrap();
    assert!(method.contains("__swift_bridge__Empty { _private: 123 }"));
    let swift_repr = empty.convert_swift_to_ffi_repr("e", PREFIX, &types).unwrap();
    assert_eq!(swift_repr, "__swift_bridge__$Empty(_private: 123)");
}

#[test]
fn zero_field_struct_value_has_placeholder() {
    let abi = struct_to_abi(&Vec::new());
    assert_eq!(abi, AbiStructValue::Placeholder(123));
    let back = abi_to_struct(&abi);
    assert!(back.is_empty());
}

// An already-declared type is referenced by a qualified path; its
// definitions are never re-emitted.
#[test]
fn already_declared_struct_uses_qualified_reference() {
    let mut s = named_struct("Shared", vec![("x", TypeRef::I32)]);
    s.already_declared = true;
    let types = empty_types();
    assert_eq!(
        s.generate_prefixed_type_name_string(PREFIX, PATH, &types).unwrap(),
        "<super::Shared as swift_bridge::SharedStruct>::FfiRepr"
    );
    assert_eq!(s.only_encoding(&types).unwrap(), None);
}

#[test]
fn already_declared_enum_emits_nothing() {
    let e = SharedEnum {
        name: "Shared".to_string(),
        variants: vec![EnumVariant { name: "A".to_string(), fields: StructFields::Unit }],
        already_declared: true,
    };
    let module = bridge_module(Vec::new());
    assert_eq!(module.generate_shared_enum_tokens(&e).unwrap(), None);
}

#[test]
fn already_declared_field_type_uses_qualified_ffi_token() {
    let decls = vec![TypeDeclaration {
        name: "Other".to_string(),
        swift_name: None,
        already_declared: true,
        is_enum: false,
    }];
    let t = tuple_struct(vec![TypeRef::I32, TypeRef::Custom("Other".to_string())]);
    let module_types = TypeDeclarations { decls };
    let def = t
        .generate_custom_rust_ffi_type(PREFIX, PATH, &module_types)
        .unwrap()
        .unwrap();
    assert!(def.contains("<super::Other as swift_bridge::SharedStruct>::FfiRepr"));
}

// Errors: an unresolvable field type and an unsupported shape are
// deterministic build-time failures.
#[test]
fn unresolved_type_is_reported() {
    let t = tuple_struct(vec![TypeRef::Custom("Missing".to_string())]);
    let types = empty_types();
    assert_eq!(
        t.combine_field_types_string(&types),
        Err(BridgeError::UnresolvedType)
    );
    assert_eq!(
        t.ffi_name_string(PREFIX, &types),
        Err(BridgeError::UnresolvedType)
    );
}

#[test]
fn named_field_tuple_is_unsupported() {
    let mut t = tuple_struct(vec![TypeRef::I32]);
    t.fields = StructFields::Named(vec![NamedField { name: "a".to_string(), ty: TypeRef::I32 }]);
    let types = empty_types();
    assert_eq!(
        t.combine_field_types_string(&types),
        Err(BridgeError::UnsupportedShape)
    );
}

#[test]
fn named_field_variant_is_unsupported() {
    let e = SharedEnum {
        name: "Bad".to_string(),
        variants: vec![EnumVariant {
            name: "V".to_string(),
            fields: StructFields::Named(vec![NamedField {
                name: "a".to_string(),
                ty: TypeRef::I32,
            }]),
        }],
        already_declared: false,
    };
    let module = bridge_module(Vec::new());
    assert_eq!(
        module.generate_shared_enum_tokens(&e),
        Err(BridgeError::UnsupportedShape)
    );
}

#[test]
fn enum_with_unresolved_payload_is_reported() {
    let e = SharedEnum {
        name: "Bad".to_string(),
        variants: vec![EnumVariant {
            name: "V".to_string(),
            fields: StructFields::Unnamed(vec![UnnamedField {
                idx: 0,
                ty: TypeRef::Custom("Missing".to_string()),
            }]),
        }],
        already_declared: false,
    };
    let module = bridge_module(Vec::new());
    assert_eq!(
        module.generate_shared_enum_tokens(&e),
        Err(BridgeError::UnresolvedType)
    );
}

// Registry lookups and the client-name override.
#[test]
fn registry_lookup_and_override() {
    let decls = vec![
        TypeDeclaration {
            name: "Renamed".to_string(),
            swift_name: Some("NiceName".to_string()),
            already_declared: false,
            is_enum: false,
        },
    ];
    let types = TypeDeclarations { decls };
    let tref = TypeRef::Custom("Renamed".to_string());
    assert_eq!(bridge_ir::ty::swift_type(&tref, &types).unwrap(), "NiceName");
    assert!(types.lookup(&"Renamed".to_string()).is_some());
    assert!(types.lookup(&"Absent".to_string()).is_none());
}

#[test]
fn struct_client_name_override() {
    let mut s = named_struct("Inner", vec![]);
    s.swift_name = Some("Pretty".to_string());
    let types = empty_types();
    assert_eq!(s.swift_name_string(&types).unwrap(), "Pretty");
    assert_eq!(s.ffi_name_string(PREFIX, &types).unwrap(), "__swift_bridge__$Pretty");
    assert_eq!(
        s.ffi_option_name_string(PREFIX, &types).unwrap(),
        "__swift_bridge__$Option$Pretty"
    );
}

#[test]
fn tuple_client_name_is_combined_list() {
    let t = tuple_struct(vec![TypeRef::I32, TypeRef::Text]);
    let types = empty_types();
    assert_eq!(t.to_swift_type(&types).unwrap(), "(Int32, String)");
    assert_eq!(t.swift_name_string(&types).unwrap(), "(Int32, String)");
}

// Token-stream output through proc-macro2.
#[test]
fn token_streams_render_the_symbol_text() {
    let point = named_struct("Point", vec![("x", TypeRef::I32)]);
    let ts = point.ffi_name_tokens(PREFIX).unwrap();
    assert_eq!(ts.to_string(), "__swift_bridge__Point");
    let opt = point.ffi_option_name_tokens(PREFIX).unwrap();
    assert_eq!(opt.to_string(), "__swift_bridge__Option_Point");
}

#[test]
fn prefixed_type_name_tokens_parse_qualified_paths() {
    let mut s = named_struct("Shared", vec![]);
    s.already_declared = true;
    let types = empty_types();
    let ts = s
        .generate_prefixed_type_name_tokens(PREFIX, PATH, &types)
        .unwrap()
        .unwrap();
    let rendered = ts.to_string();
    assert!(rendered.contains("super"));
    assert!(rendered.contains("FfiRepr"));
}

// The reflection entry points hand values across and straight back.
#[test]
fn reflect_functions_are_identity() {
    assert_eq!(
        reflect_enum_with_no_data(EnumWithNoData::Variant1),
        EnumWithNoData::Variant1
    );
    assert_eq!(
        reflect_enum_with_unnamed_data(EnumWithUnnamedData::OneField(7)),
        EnumWithUnnamedData::OneField(7)
    );
    assert_eq!(
        reflect_enum_with_named_data(EnumWithNamedData::TwoFields {
            hello: "hi".to_string(),
            data_u8: 5,
        }),
        EnumWithNamedData::TwoFields { hello: "hi".to_string(), data_u8: 5 }
    );
    assert_eq!(
        reflect_enum_with_opaque_type(EnumWithOpaqueRust::Unnamed(OpaqueRustForEnumTest::new())),
        EnumWithOpaqueRust::Unnamed(OpaqueRustForEnumTest::new())
    );
}

#[test]
fn unit_variant_round_trip_through_placeholder() {
    assert_eq!(
        round_trip_enum_with_no_data(EnumWithNoData::Variant2),
        EnumWithNoData::Variant2
    );
    let ffi = EnumWithNoData::Variant1.into_ffi_repr();
    assert_eq!(ffi, EnumWithNoDataFfi::Variant1(123));
    assert_eq!(ffi.into_rust_repr(), EnumWithNoData::Variant1);
}

// The optional wrapper: absent values carry no payload; present values
// survive the round trip exactly.
#[test]
fn option_wrapper_round_trip() {
    let absent = OptionAbiEnumValue::from_rust_repr(None);
    assert!(!absent.is_some);
    assert_eq!(absent.val, None);
    assert_eq!(absent.into_rust_repr(), None);

    let v = NativeEnumValue {
        variant: 1,
        fields: vec![PrimValue::Text("payload".to_string()), PrimValue::Bool(true)],
    };
    let back = round_trip_option_value(Some(v)).unwrap();
    assert_eq!(back.variant, 1);
    assert_eq!(
        back.fields,
        vec![PrimValue::Text("payload".to_string()), PrimValue::Bool(true)]
    );
}

#[test]
fn enum_value_round_trip_with_payload() {
    let v = NativeEnumValue {
        variant: 0,
        fields: vec![
            PrimValue::I32(-9),
            PrimValue::U8(200),
            PrimValue::Text("s".to_string()),
            PrimValue::Opaque(41),
        ],
    };
    let r = round_trip_enum_value(&v);
    assert_eq!(r.variant, 0);
    assert_eq!(r.fields, v.fields);
    let empty = NativeEnumValue { variant: 3, fields: Vec::new() };
    let abi = enum_to_abi(&empty);
    assert_eq!(abi.payload, AbiStructValue::Placeholder(123));
    let back = abi_to_enum(&abi);
    assert_eq!(back.variant, 3);
    assert!(back.fields.is_empty());
}

#[test]
fn decimal_rendering_of_field_indices() {
    let tys: Vec<TypeRef> = (0..12).map(|_| TypeRef::I32).collect();
    let t = tuple_struct(tys);
    let rebuilt = t.convert_ffi_expression_to_rust_type("v");
    assert!(rebuilt.ends_with("v.10, v.11)"));
    assert_eq!(bridge_ir::text::dec_string(0), "0");
    assert_eq!(bridge_ir::text::dec_string(907), "907");
}

#[test]
fn unit_struct_has_empty_wrapper() {
    let unit = SharedStruct {
        name: "Marker".to_string(),
        swift_repr: StructSwiftRepr::Structure,
        fields: StructFields::Unit,
        swift_name: None,
        already_declared: false,
        is_tuple: false,
    };
    let types = empty_types();
    let only = unit.only_encoding(&types).unwrap().unwrap();
    assert_eq!(only.swift, "Marker()");
    assert_eq!(only.rust, "Marker");
    let conv = unit.convert_ffi_repr_to_rust("v", PATH, &types).unwrap();
    assert_eq!(conv, "Marker");
}

#[test]
fn multi_field_variant_binds_each_payload_field() {
    let e = SharedEnum {
        name: "Mixed".to_string(),
        variants: vec![EnumVariant {
            name: "TwoFields".to_string(),
            fields: StructFields::Unnamed(vec![
                UnnamedField { idx: 0, ty: TypeRef::Text },
                UnnamedField { idx: 1, ty: TypeRef::U8 },
            ]),
        }],
        already_declared: false,
    };
    let module = bridge_module(Vec::new());
    let out = module.generate_shared_enum_tokens(&e).unwrap().unwrap();
    assert!(out.contains(
        "Mixed::TwoFields(x0, x1) => __swift_bridge__Mixed::TwoFields\
         (swift_bridge::string::RustString(x0).box_into_raw(), x1)"
    ));
    assert!(out.contains(
        "__swift_bridge__Mixed::TwoFields(x0, x1) => Mixed::TwoFields\
         (swift_bridge::string::RustString::reclaim_string(x0), x1)"
    ));
    assert!(out.contains(
        "pub enum __swift_bridge__Mixed { TwoFields(*mut swift_bridge::string::RustString, u8) }"
    ));
}

#[test]
fn primitive_type_token_mappings() {
    let types = empty_types();
    assert_eq!(bridge_ir::ty::swift_type(&TypeRef::Bool, &types).unwrap(), "Bool");
    assert_eq!(bridge_ir::ty::swift_type(&TypeRef::F64, &types).unwrap(), "Double");
    assert_eq!(bridge_ir::ty::swift_type(&TypeRef::U8, &types).unwrap(), "UInt8");
    assert_eq!(bridge_ir::ty::c_type(&TypeRef::F64, PREFIX, &types).unwrap(), "double");
    assert_eq!(bridge_ir::ty::c_type(&TypeRef::Bool, PREFIX, &types).unwrap(), "bool");
    assert_eq!(
        bridge_ir::ty::c_type(&TypeRef::Text, PREFIX, &types).unwrap(),
        "void*"
    );
    assert_eq!(bridge_ir::ty::rust_type_path(&TypeRef::F64, &types).unwrap(), "f64");
}

#[test]
fn unresolved_reference_in_struct_field() {
    let s = named_struct("Holder", vec![("bad", TypeRef::Custom("Nowhere".to_string()))]);
    let types = empty_types();
    assert_eq!(
        s.generate_into_ffi_repr_method("e", PREFIX, PATH, &types),
        Err(BridgeError::UnresolvedType)
    );
    assert_eq!(
        s.convert_ffi_repr_to_rust("v", PATH, &types),
        Err(BridgeError::UnresolvedType)
    );
}

#[test]
fn custom_field_delegates_to_own_conversions() {
    let decls = vec![TypeDeclaration {
        name: "Inner".to_string(),
        swift_name: None,
        already_declared: false,
        is_enum: false,
    }];
    let types = TypeDeclarations { decls };
    let s = named_struct("Outer", vec![("inner", TypeRef::Custom("Inner".to_string()))]);
    let method = s.generate_into_ffi_repr_method("e", PREFIX, PATH, &types).unwrap();
    assert!(method.contains("inner: val.inner.into_ffi_repr()"));
    let back = s.convert_ffi_repr_to_rust("v", PATH, &types).unwrap();
    assert!(back.contains("inner: val.inner.into_rust_repr()"));
}

fn plain_decl(name: &str) -> TypeDeclaration {
    TypeDeclaration {
        name: name.to_string(),
        swift_name: None,
        already_declared: false,
        is_enum: false,
    }
}

// Distinct field-type sequences receive distinct symbols even when declared
// names could otherwise blur together: a name token carries its length.
#[test]
fn tuple_symbols_distinct_for_named_field_types() {
    let types = TypeDeclarations {
        decls: vec![plain_decl("A"), plain_decl("AB"), plain_decl("BC"), plain_decl("C")],
    };
    let t1 = tuple_struct(vec![
        TypeRef::Custom("AB".to_string()),
        TypeRef::Custom("C".to_string()),
    ]);
    let t2 = tuple_struct(vec![
        TypeRef::Custom("A".to_string()),
        TypeRef::Custom("BC".to_string()),
    ]);
    let s1 = t1.ffi_name_string(PREFIX, &types).unwrap();
    let s2 = t2.ffi_name_string(PREFIX, &types).unwrap();
    assert_eq!(s1, "__swift_bridge__$tuple$C2_ABC1_C");
    assert_eq!(s2, "__swift_bridge__$tuple$C1_AC2_BC");
    assert_ne!(s1, s2);
}

#[test]
fn tuple_mangle_mixes_primitive_and_named_tokens() {
    let types = TypeDeclarations { decls: vec![plain_decl("Foo")] };
    let t = tuple_struct(vec![TypeRef::I32, TypeRef::Custom("Foo".to_string())]);
    assert_eq!(t.combine_field_types_string(&types).unwrap(), "i32C3_Foo");
    assert_eq!(
        t.convert_rust_expression_to_ffi_type("e", PREFIX, &types).unwrap(),
        "let val = e; __swift_bridge__tuple_i32C3_Foo(val.0, val.1)"
    );
}
