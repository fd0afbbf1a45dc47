//! Tests of the signature descriptor's lowering operations.

use swift_bridge_ir::abi::{render_abi_param, AbiParam};
use swift_bridge_ir::call::{render_call_args, CallArg, DerefMode};
use swift_bridge_ir::sig::{HostLang, Param, ParsedExternFn, SelfKind};
use swift_bridge_ir::ty::TypeExpr;

fn path(name: &str) -> TypeExpr {
    TypeExpr::Path { name: name.to_string() }
}

fn reference(mutable: bool, elem: TypeExpr) -> TypeExpr {
    TypeExpr::Reference { lifetime: None, mutable, elem: Box::new(elem) }
}

fn named(name: &str, ty: TypeExpr) -> Param {
    Param::Named { name: name.to_string(), ty }
}

fn receiver(kind: SelfKind) -> Param {
    Param::Receiver { kind }
}

fn by_ref(mutable: bool) -> SelfKind {
    SelfKind::Ref { lifetime: None, mutable }
}

fn method_on_foo(fn_name: &str, params: Vec<Param>, ret: Option<TypeExpr>) -> ParsedExternFn {
    ParsedExternFn {
        fn_name: fn_name.to_string(),
        params,
        ret,
        associated_type: Some("Foo".to_string()),
        is_initializer: false,
        host_lang: HostLang::Rust,
    }
}

fn free_fn(fn_name: &str, params: Vec<Param>, ret: Option<TypeExpr>) -> ParsedExternFn {
    ParsedExternFn {
        fn_name: fn_name.to_string(),
        params,
        ret,
        associated_type: None,
        is_initializer: false,
        host_lang: HostLang::Rust,
    }
}

fn abi_strings(params: &[AbiParam]) -> Vec<String> {
    params.iter().map(render_abi_param).collect()
}

/// Verify that when generating rust call args we do not include the receiver.
#[test]
fn does_not_include_self_in_rust_call_args() {
    let methods = vec![
        method_on_foo("make1", vec![receiver(SelfKind::Value)], None),
        method_on_foo("make2", vec![receiver(by_ref(false))], None),
        method_on_foo("make3", vec![receiver(by_ref(true))], None),
        method_on_foo("make4", vec![named("self", path("Foo"))], None),
        method_on_foo("make5", vec![named("self", reference(false, path("Foo")))], None),
        method_on_foo("make6", vec![named("self", reference(true, path("Foo")))], None),
    ];
    assert_eq!(methods.len(), 6);

    for method in &methods {
        let rust_call_args = render_call_args(&method.to_rust_call_args());
        assert_eq!(rust_call_args, "", "\n Function: {:#?}", method);
    }
}

/// Every receiver form lowers to a single ABI slot named `this`.
#[test]
fn receiver_forms_lower_to_this_slot() {
    let methods = vec![
        method_on_foo("make1", vec![receiver(SelfKind::Value)], None),
        method_on_foo("make2", vec![receiver(by_ref(false))], None),
        method_on_foo("make3", vec![receiver(by_ref(true))], None),
        method_on_foo("make4", vec![named("self", path("Foo"))], None),
        method_on_foo("make5", vec![named("self", reference(false, path("Foo")))], None),
        method_on_foo("make6", vec![named("self", reference(true, path("Foo")))], None),
    ];
    for method in &methods {
        let abi = method.to_extern_c_param_names_and_types();
        assert_eq!(abi.len(), 1, "{}", method.fn_name);
        assert_eq!(abi[0].name, "this", "{}", method.fn_name);
    }
}

/// The ABI parameter list and the header parameter list agree in count and
/// order with the descriptor's parameter list.
#[test]
fn abi_and_header_lists_align() {
    let f = method_on_foo(
        "mix",
        vec![
            receiver(by_ref(false)),
            named("n", path("u16")),
            named("bar", reference(false, path("Bar"))),
        ],
        None,
    );
    assert_eq!(
        abi_strings(&f.to_extern_c_param_names_and_types()),
        vec!["this: *mut Foo", "n: u16", "bar: *mut Bar"]
    );
    let header = f.to_c_header_params();
    let header_entries: Vec<&str> = header.split(", ").collect();
    assert_eq!(header_entries, vec!["void* self", "uint16_t n", "void* bar"]);
}

/// A receiver-less free function with one built-in parameter.
#[test]
fn free_function_with_built_in_arg() {
    let f = free_fn("f", vec![named("x", path("u32"))], None);
    assert_eq!(abi_strings(&f.to_extern_c_param_names_and_types()), vec!["x: u32"]);
    assert_eq!(f.to_c_header_params(), "uint32_t x");
    assert_eq!(f.to_c_header_return(), "void");
    assert!(!f.is_method());
}

/// A method taking the receiver by reference and returning a primitive.
#[test]
fn method_by_reference_returning_primitive() {
    let f = method_on_foo("make", vec![receiver(by_ref(false))], Some(path("u8")));
    assert_eq!(abi_strings(&f.to_extern_c_param_names_and_types()), vec!["this: *mut Foo"]);
    assert_eq!(f.to_c_header_params(), "void* self");
    assert_eq!(f.to_c_header_return(), "uint8_t");
    assert_eq!(f.link_name(), "__swift_bridge__$Foo$make");
    assert_eq!(f.prefixed_fn_name(), "__swift_bridge__Foo_make");
    assert_eq!(f.extern_swift_linked_fn_new(), "__swift_bridge__Foo_make");
}

/// An opaque argument passed by value is reconstructed as a consuming
/// dereference, not a reference access.
#[test]
fn owned_opaque_arg_reconstructed_as_consuming_deref() {
    let f = method_on_foo(
        "set",
        vec![receiver(by_ref(true)), named("other", path("Bar"))],
        None,
    );
    let args = f.to_rust_call_args();
    assert_eq!(
        args,
        vec![CallArg::Deref { name: "other".to_string(), mode: DerefMode::Consuming }]
    );
    assert_eq!(render_call_args(&args), "unsafe { *other }");
}

/// A function returning a reference to a slice.
#[test]
fn slice_return() {
    let f = free_fn(
        "bytes",
        vec![],
        Some(reference(false, TypeExpr::Slice { elem: Box::new(path("u8")) })),
    );
    assert!(f.returns_slice());
    assert_eq!(f.to_c_header_return(), "void*");
    assert_eq!(f.to_c_header_params(), "void");
}

/// Opaque arguments render as untyped pointers in the header; built-in
/// arguments keep their C spelling.
#[test]
fn header_params_mix_built_in_and_opaque() {
    let f = method_on_foo(
        "update",
        vec![
            receiver(by_ref(false)),
            named("count", path("u64")),
            named("bar", reference(false, path("Bar"))),
        ],
        None,
    );
    assert_eq!(f.to_c_header_params(), "void* self, uint64_t count, void* bar");
}

/// A non-receiver parameter literally named `self` renders as `void* self`
/// in the header and is renamed to `this` in the ABI parameter list.
#[test]
fn named_self_parameter_special_case() {
    let f = free_fn(
        "poke",
        vec![named("x", path("u8")), named("self", reference(false, path("Foo")))],
        None,
    );
    assert_eq!(f.to_c_header_params(), "uint8_t x, void* self");
    assert_eq!(
        abi_strings(&f.to_extern_c_param_names_and_types()),
        vec!["x: u8", "this: *mut Foo"]
    );
}

/// When the implementation is hosted on the foreign side, the receiver
/// contributes the proxy's handle access as the first call argument.
#[test]
fn swift_host_receiver_contributes_handle_access() {
    let mut f = method_on_foo(
        "foo",
        vec![
            receiver(by_ref(false)),
            named("arg1", path("u8")),
            named("arg2", path("u32")),
            named("bar", reference(false, path("SomeType"))),
        ],
        None,
    );
    assert_eq!(
        render_call_args(&f.to_rust_call_args()),
        "arg1, arg2, unsafe { &*bar }"
    );
    f.host_lang = HostLang::Swift;
    assert_eq!(
        render_call_args(&f.to_rust_call_args()),
        "self.0, arg1, arg2, unsafe { &*bar }"
    );
}

/// A mutable reference to an opaque type is reconstructed with its
/// qualifier applied back.
#[test]
fn mutable_reference_arg_reconstruction() {
    let f = free_fn("touch", vec![named("bar", reference(true, path("Bar")))], None);
    assert_eq!(render_call_args(&f.to_rust_call_args()), "unsafe { &mut *bar }");
}

/// Receiver introspection across the six receiver forms.
#[test]
fn receiver_introspection() {
    let by_value = method_on_foo("a", vec![receiver(SelfKind::Value)], None);
    assert!(by_value.is_method());
    assert_eq!(by_value.self_reference(), None);
    assert!(!by_value.self_mutability());

    let by_reference = method_on_foo("b", vec![receiver(by_ref(false))], None);
    assert_eq!(by_reference.self_reference(), Some(None));
    assert!(!by_reference.self_mutability());

    let by_mut_reference = method_on_foo("c", vec![receiver(by_ref(true))], None);
    assert_eq!(by_mut_reference.self_reference(), Some(None));
    assert!(by_mut_reference.self_mutability());

    let with_lifetime = method_on_foo(
        "d",
        vec![receiver(SelfKind::Ref { lifetime: Some("a".to_string()), mutable: false })],
        None,
    );
    assert_eq!(with_lifetime.self_reference(), Some(Some("a".to_string())));

    let typed_value = method_on_foo("e", vec![named("self", path("Foo"))], None);
    assert!(typed_value.is_method());
    assert_eq!(typed_value.self_reference(), None);
    assert!(!typed_value.self_mutability());

    let typed_mut_ref = method_on_foo("f", vec![named("self", reference(true, path("Foo")))], None);
    assert_eq!(typed_mut_ref.self_reference(), Some(None));
    assert!(typed_mut_ref.self_mutability());

    let free = free_fn("g", vec![named("x", path("u8"))], None);
    assert!(!free.is_method());
    assert_eq!(free.self_reference(), None);
    assert!(!free.self_mutability());
}

/// The fixed-width-integer header is needed exactly when an integer
/// primitive occurs in the signature.
#[test]
fn contains_ints_looks_at_params_and_return() {
    let with_int_param = free_fn("a", vec![named("x", path("i16"))], None);
    assert!(with_int_param.contains_ints());

    let with_int_return = free_fn("b", vec![], Some(path("u64")));
    assert!(with_int_return.contains_ints());

    let with_bool_only = free_fn("c", vec![named("x", path("bool"))], Some(path("bool")));
    assert!(!with_bool_only.contains_ints());

    let with_opaque_only = free_fn("d", vec![named("x", path("Foo"))], Some(path("Foo")));
    assert!(!with_opaque_only.contains_ints());
}

/// The transfer function's return spelling.
#[test]
fn rust_return_type_spelling() {
    let none = free_fn("a", vec![], None);
    assert_eq!(none.rust_return_type("swift_bridge"), "");

    let primitive = free_fn("b", vec![], Some(path("u8")));
    assert_eq!(primitive.rust_return_type("swift_bridge"), "-> u8");

    let string_ref = free_fn("c", vec![], Some(reference(false, path("str"))));
    assert_eq!(
        string_ref.rust_return_type("swift_bridge"),
        "-> swift_bridge::string::RustStr"
    );

    let opaque = free_fn("d", vec![], Some(path("Foo")));
    assert_eq!(opaque.rust_return_type("swift_bridge"), "-> *mut std::ffi::c_void");
}
