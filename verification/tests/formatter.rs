use diplomat_core::hir::{
    FloatType, Int128Type, IntSizeType, IntType, Mutability, PrimitiveType, StringEncoding,
};
use mojo_backend::errors::LoweringError;
use mojo_backend::formatter::CFormatter;
use mojo_backend::hir::{
    Callback, EnumDef, EnumVariant, MaybeOwn, OpaqueDef, OpaquePath, Slice, StructDef, StructPath,
    SymbolId, TraitDef, TraitId, Type, TypeContext, TypeId,
};

fn universe() -> TypeContext {
    let mut tcx = TypeContext::new();
    tcx.structs.push(StructDef {
        name: String::from("MyStruct"),
        fields: vec![],
        methods: vec![],
        disable: false,
    });
    tcx.out_structs.push(StructDef {
        name: String::from("OutStruct"),
        fields: vec![],
        methods: vec![],
        disable: false,
    });
    tcx.opaques.push(OpaqueDef {
        name: String::from("Opaque"),
        methods: vec![],
        disable: false,
        dtor_abi_name: String::from("Opaque_destroy"),
    });
    tcx.enums.push(EnumDef {
        name: String::from("MyEnum"),
        variants: vec![EnumVariant { name: String::from("A") }],
        methods: vec![],
        disable: false,
    });
    tcx.traits.push(TraitDef { name: String::from("MyTrait"), methods: vec![], disable: false });
    tcx
}

fn supported() -> Vec<(PrimitiveType, &'static str, &'static str)> {
    vec![
        (PrimitiveType::Bool, "c_bool", "Bool"),
        (PrimitiveType::Char, "c_char32", "Char"),
        (PrimitiveType::Byte, "c_uint8", "U8"),
        (PrimitiveType::Ordering, "c_int8", "I8"),
        (PrimitiveType::Int(IntType::I8), "c_int8", "I8"),
        (PrimitiveType::Int(IntType::U8), "c_uint8", "U8"),
        (PrimitiveType::Int(IntType::I16), "c_int16", "I16"),
        (PrimitiveType::Int(IntType::U16), "c_uint16", "U16"),
        (PrimitiveType::Int(IntType::I32), "c_int32", "I32"),
        (PrimitiveType::Int(IntType::U32), "c_uint32", "U32"),
        (PrimitiveType::Int(IntType::I64), "c_int64", "I64"),
        (PrimitiveType::Int(IntType::U64), "c_uint64", "U64"),
        (PrimitiveType::IntSize(IntSizeType::Isize), "c_intptr", "Isize"),
        (PrimitiveType::IntSize(IntSizeType::Usize), "c_size_t", "Usize"),
        (PrimitiveType::Float(FloatType::F32), "c_float", "F32"),
        (PrimitiveType::Float(FloatType::F64), "c_double", "F64"),
    ]
}

#[test]
fn every_supported_primitive_has_a_spelling_and_a_tag() {
    let tcx = universe();
    let f = CFormatter::new(&tcx);
    for (prim, abi, tag) in supported() {
        assert_eq!(f.check_primitive(prim), Ok(()));
        assert_eq!(f.fmt_primitive_as_mojo(prim), abi);
        assert_eq!(f.fmt_primitive_name_for_derived_type(prim), tag);
    }
}

#[test]
fn wide_integers_have_neither_spelling_nor_tag() {
    let tcx = universe();
    let f = CFormatter::new(&tcx);
    for prim in [PrimitiveType::Int128(Int128Type::I128), PrimitiveType::Int128(Int128Type::U128)] {
        assert_eq!(f.check_primitive(prim), Err(LoweringError::UnsupportedPrimitive));
        assert_eq!(
            f.check_optional(&Type::Primitive(prim)),
            Err(LoweringError::UnsupportedPrimitive)
        );
    }
}

#[test]
fn names_resolve_through_the_universe() {
    let tcx = universe();
    let f = CFormatter::new(&tcx);
    assert_eq!(f.fmt_type_name(TypeId::Struct(0)), "MyStruct");
    assert_eq!(f.fmt_type_name(TypeId::OutStruct(0)), "OutStruct");
    assert_eq!(f.fmt_type_name(TypeId::Opaque(0)), "Opaque");
    assert_eq!(f.fmt_type_name(TypeId::Enum(0)), "MyEnum");
    assert_eq!(f.fmt_trait_name(TraitId(0)), "MyTrait");
    assert_eq!(f.fmt_type_name_maybe_namespaced(SymbolId::TypeId(TypeId::Opaque(0))), "Opaque");
    assert_eq!(f.fmt_type_name_maybe_namespaced(SymbolId::TraitId(TraitId(0))), "MyTrait");
    assert_eq!(f.check_symbol(SymbolId::TypeId(TypeId::Opaque(0))), Ok(()));
    assert_eq!(f.check_symbol(SymbolId::TraitId(TraitId(0))), Ok(()));
    assert_eq!(
        f.check_symbol(SymbolId::TypeId(TypeId::Enum(1))),
        Err(LoweringError::UnresolvedSymbol)
    );
    assert_eq!(
        f.check_symbol(SymbolId::TraitId(TraitId(7))),
        Err(LoweringError::UnresolvedSymbol)
    );
    assert_eq!(f.check_symbol(SymbolId::FunctionId(0)), Err(LoweringError::SymbolKindMismatch));
    assert_eq!(
        f.check_symbol(SymbolId::TypeId(TypeId::Struct(3))),
        Err(LoweringError::UnresolvedSymbol)
    );
    assert!(std::ptr::eq(f.tcx(), &tcx));
}

#[test]
fn header_paths_are_lower_case_and_differ() {
    let tcx = universe();
    let f = CFormatter::new(&tcx);
    let id = SymbolId::TypeId(TypeId::Struct(0));
    assert_eq!(f.fmt_decl_header_path(id), "mystruct_d.mojo");
    assert_eq!(f.fmt_impl_header_path(id), "mystruct.mojo");
    let t = SymbolId::TraitId(TraitId(0));
    assert_eq!(f.fmt_decl_header_path(t), "mytrait_d.mojo");
    assert_eq!(f.fmt_impl_header_path(t), "mytrait.mojo");
    for id in [
        SymbolId::TypeId(TypeId::Struct(0)),
        SymbolId::TypeId(TypeId::OutStruct(0)),
        SymbolId::TypeId(TypeId::Opaque(0)),
        SymbolId::TypeId(TypeId::Enum(0)),
        SymbolId::TraitId(TraitId(0)),
    ] {
        assert_ne!(f.fmt_decl_header_path(id), f.fmt_impl_header_path(id));
    }
}

#[test]
fn header_paths_ignore_case() {
    let mut tcx = TypeContext::new();
    for name in ["FooBar", "foobar", "FOOBAR"] {
        tcx.enums.push(EnumDef {
            name: String::from(name),
            variants: vec![],
            methods: vec![],
            disable: false,
        });
    }
    let f = CFormatter::new(&tcx);
    for i in 0..3 {
        let id = SymbolId::TypeId(TypeId::Enum(i));
        assert_eq!(f.fmt_decl_header_path(id), "foobar_d.mojo");
        assert_eq!(f.fmt_impl_header_path(id), "foobar.mojo");
    }
}

#[test]
fn optional_names() {
    let tcx = universe();
    let f = CFormatter::new(&tcx);
    assert_eq!(
        f.fmt_optional_type_name(&Type::Primitive(PrimitiveType::Int(IntType::U16)), "c_uint16"),
        "OptionU16"
    );
    assert_eq!(
        f.fmt_optional_type_name(&Type::Primitive(PrimitiveType::Bool), "anything"),
        "OptionBool"
    );
    assert_eq!(
        f.fmt_optional_type_name(&Type::Struct(StructPath::Struct(0)), "MyStruct"),
        "MyStruct_option"
    );
    assert_eq!(f.fmt_optional_type_name(&Type::Enum(0), "MyEnum"), "MyEnum_option");
    assert_eq!(f.check_optional(&Type::Primitive(PrimitiveType::Bool)), Ok(()));
    assert_eq!(f.check_optional(&Type::Struct(StructPath::Struct(0))), Ok(()));
    assert_eq!(f.check_optional(&Type::Enum(0)), Ok(()));
}

#[test]
fn optional_names_of_other_types_fail() {
    let tcx = universe();
    let f = CFormatter::new(&tcx);
    let others = vec![
        Type::Opaque(OpaquePath { tcx_id: 0, owner: MaybeOwn::Own }),
        Type::Slice(Slice::Str(StringEncoding::Utf8)),
        Type::Slice(Slice::Strs(StringEncoding::Utf8)),
        Type::Slice(Slice::Primitive(MaybeOwn::Own, PrimitiveType::Bool)),
        Type::ImplTrait(TraitId(0)),
        Type::Callback(Callback { params: vec![], output: None }),
        Type::DiplomatOption(Box::new(Type::Primitive(PrimitiveType::Bool))),
    ];
    for ty in &others {
        assert_eq!(f.check_optional(ty), Err(LoweringError::InvalidOptionInner));
    }
}

#[test]
fn enum_variants_are_flattened() {
    let tcx = universe();
    let f = CFormatter::new(&tcx);
    assert_eq!(f.fmt_enum_variant("MyEnum", &EnumVariant { name: String::from("A") }), "MyEnum_A");
    assert_eq!(f.fmt_enum_variant("", &EnumVariant { name: String::from("") }), "_");
}

#[test]
fn param_names_pass_through() {
    let tcx = universe();
    let f = CFormatter::new(&tcx);
    assert_eq!(f.fmt_param_name("count"), "count");
    assert_eq!(f.fmt_param_name("self"), "self");
    assert_eq!(f.fmt_param_name(""), "");
}

#[test]
fn pointers_differ_by_mutability() {
    let tcx = universe();
    let f = CFormatter::new(&tcx);
    assert_eq!(f.fmt_ptr("Opaque", Mutability::Mutable), "UnsafePointer[Opaque]");
    assert_eq!(f.fmt_ptr("Opaque", Mutability::Immutable), "UnsafePointer[Opaque, mut=False]");
    for ident in ["Opaque", "", "a, mut=False", "x]"] {
        let mutable = f.fmt_ptr(ident, Mutability::Mutable);
        let immutable = f.fmt_ptr(ident, Mutability::Immutable);
        assert_ne!(mutable, immutable);
        assert!(mutable.contains(ident));
        assert!(immutable.contains(ident));
    }
}

#[test]
fn primitive_views_are_mutable_unless_borrowed_immutably() {
    let tcx = universe();
    let f = CFormatter::new(&tcx);
    let u8 = PrimitiveType::Int(IntType::U8);
    assert_eq!(
        f.fmt_primitive_slice_name(MaybeOwn::Borrow(Mutability::Immutable), u8),
        "DiplomatU8View"
    );
    assert_eq!(
        f.fmt_primitive_slice_name(MaybeOwn::Borrow(Mutability::Mutable), u8),
        "DiplomatU8ViewMut"
    );
    assert_eq!(
        f.fmt_primitive_slice_name(MaybeOwn::Own, u8),
        "DiplomatU8ViewMut"
    );
    assert_eq!(
        f.fmt_primitive_slice_name(
            MaybeOwn::Borrow(Mutability::Immutable),
            PrimitiveType::Float(FloatType::F64)
        ),
        "DiplomatF64View"
    );
}

#[test]
fn string_views_are_named_by_encoding() {
    let tcx = universe();
    let f = CFormatter::new(&tcx);
    assert_eq!(f.fmt_str_view_name(StringEncoding::UnvalidatedUtf16), "DiplomatString16View");
    assert_eq!(f.fmt_str_view_name(StringEncoding::UnvalidatedUtf8), "DiplomatStringView");
    assert_eq!(f.fmt_str_view_name(StringEncoding::Utf8), "DiplomatStringView");
    assert_eq!(f.fmt_strs_view_name(StringEncoding::UnvalidatedUtf16), "DiplomatStrings16View");
    assert_eq!(f.fmt_strs_view_name(StringEncoding::UnvalidatedUtf8), "DiplomatStringsView");
    assert_eq!(f.fmt_strs_view_name(StringEncoding::Utf8), "DiplomatStringsView");
    assert_eq!(f.fmt_write_name(), "DiplomatWrite");
}
