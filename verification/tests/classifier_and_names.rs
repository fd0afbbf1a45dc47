//! Tests of the type classifier and the name mangler.

use swift_bridge_ir::ty::{
    c_type, classify, needs_include_int_header, render_type, BuiltInType, PrimKind, TypeExpr,
};
use swift_bridge_ir::{link_symbol, prefixed_identifier};

fn path(name: &str) -> TypeExpr {
    TypeExpr::Path { name: name.to_string() }
}

fn reference(mutable: bool, elem: TypeExpr) -> TypeExpr {
    TypeExpr::Reference { lifetime: None, mutable, elem: Box::new(elem) }
}

fn slice(elem: TypeExpr) -> TypeExpr {
    TypeExpr::Slice { elem: Box::new(elem) }
}

#[test]
fn classifies_primitives_with_c_spellings() {
    let cases = vec![
        ("u8", PrimKind::U8, "uint8_t"),
        ("i8", PrimKind::I8, "int8_t"),
        ("u16", PrimKind::U16, "uint16_t"),
        ("i16", PrimKind::I16, "int16_t"),
        ("u32", PrimKind::U32, "uint32_t"),
        ("i32", PrimKind::I32, "int32_t"),
        ("u64", PrimKind::U64, "uint64_t"),
        ("i64", PrimKind::I64, "int64_t"),
        ("usize", PrimKind::Usize, "uintptr_t"),
        ("isize", PrimKind::Isize, "intptr_t"),
        ("f32", PrimKind::F32, "float"),
        ("f64", PrimKind::F64, "double"),
        ("bool", PrimKind::Bool, "bool"),
    ];
    for (name, kind, c) in cases {
        let classified = classify(&path(name));
        assert_eq!(classified, Some(BuiltInType::Primitive { kind }), "{}", name);
        assert_eq!(c_type(&classified.unwrap()), c, "{}", name);
    }
}

#[test]
fn classifies_string_and_slice_references() {
    assert_eq!(classify(&reference(false, path("str"))), Some(BuiltInType::StringRef));
    assert_eq!(c_type(&BuiltInType::StringRef), "void*");

    let byte_slice = classify(&reference(false, slice(path("u8"))));
    assert_eq!(
        byte_slice,
        Some(BuiltInType::RefSlice {
            elem: Box::new(BuiltInType::Primitive { kind: PrimKind::U8 })
        })
    );
    assert_eq!(c_type(&byte_slice.unwrap()), "void*");
}

#[test]
fn unrecognized_types_are_opaque() {
    assert_eq!(classify(&path("Foo")), None);
    assert_eq!(classify(&path("str")), None);
    assert_eq!(classify(&reference(false, path("u32"))), None);
    assert_eq!(classify(&reference(false, slice(path("Foo")))), None);
    assert_eq!(classify(&slice(path("u8"))), None);
}

#[test]
fn int_header_needed_only_for_integer_primitives() {
    assert!(needs_include_int_header(&BuiltInType::Primitive { kind: PrimKind::U8 }));
    assert!(needs_include_int_header(&BuiltInType::Primitive { kind: PrimKind::Isize }));
    assert!(!needs_include_int_header(&BuiltInType::Primitive { kind: PrimKind::Bool }));
    assert!(!needs_include_int_header(&BuiltInType::Primitive { kind: PrimKind::F32 }));
    assert!(!needs_include_int_header(&BuiltInType::Primitive { kind: PrimKind::F64 }));
    assert!(!needs_include_int_header(&BuiltInType::StringRef));
    assert!(!needs_include_int_header(&BuiltInType::RefSlice {
        elem: Box::new(BuiltInType::Primitive { kind: PrimKind::U16 })
    }));
}

#[test]
fn renders_type_expressions() {
    assert_eq!(render_type(&path("Foo")), "Foo");
    assert_eq!(render_type(&reference(false, path("Bar"))), "&Bar");
    assert_eq!(render_type(&reference(true, path("Bar"))), "&mut Bar");
    assert_eq!(render_type(&reference(false, slice(path("u8")))), "&[u8]");
    let with_lifetime = TypeExpr::Reference {
        lifetime: Some("a".to_string()),
        mutable: true,
        elem: Box::new(path("Bar")),
    };
    assert_eq!(render_type(&with_lifetime), "&'a mut Bar");
}

#[test]
fn link_symbols_follow_the_owning_type() {
    assert_eq!(link_symbol("PREFIX", Some("Foo"), "make"), "PREFIX$Foo$make");
    assert_eq!(link_symbol("PREFIX", None, "f"), "PREFIX$f");
}

#[test]
fn prefixed_identifiers_follow_the_owning_type() {
    assert_eq!(prefixed_identifier("PREFIX_", Some("Foo"), "make"), "PREFIX_Foo_make");
    assert_eq!(prefixed_identifier("PREFIX_", None, "f"), "PREFIX_f");
}

#[test]
fn distinct_pairs_give_distinct_link_symbols() {
    let symbols = vec![
        link_symbol("P", Some("Foo"), "make"),
        link_symbol("P", Some("Foo"), "take"),
        link_symbol("P", Some("Bar"), "make"),
        link_symbol("P", None, "make"),
        link_symbol("P", None, "Foo_make"),
    ];
    for (i, a) in symbols.iter().enumerate() {
        for (j, b) in symbols.iter().enumerate() {
            assert_eq!(a == b, i == j, "{} vs {}", a, b);
        }
    }
}
