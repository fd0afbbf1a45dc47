//! Type expressions and their classification.
//!
//! A type crossing the boundary is either built-in — one of a fixed set of
//! kinds with a known, representation-stable C equivalent (numeric scalars,
//! boolean, string reference, reference to a slice) — or opaque: a declared
//! type with no native C representation, which always crosses the boundary
//! as an untyped pointer. Classification is a total, pure function of the
//! type expression; an unrecognized expression is opaque by construction.

use vstd::prelude::*;

verus! {

/// A source-language type expression, as far as the boundary lowering needs
/// to read it: a (possibly qualified) named type, a reference, or a slice.
#[derive(Debug, PartialEq, Eq)]
pub enum TypeExpr {
    /// A named type such as `u32` or a declared type such as `Foo`.
    Path { name: String },
    /// A reference `&T`, `&mut T`, `&'a T`, with the lifetime name stored
    /// without its leading apostrophe.
    Reference { lifetime: Option<String>, mutable: bool, elem: Box<TypeExpr> },
    /// A slice `[T]`.
    Slice { elem: Box<TypeExpr> },
}

/// The primitive marshalable kinds: the fixed-width and pointer-sized
/// integers, the two floating-point widths, and booleans.
#[derive(Clone, Copy, Debug, PartialEq, Eq, Structural)]
pub enum PrimKind {
    U8,
    I8,
    U16,
    I16,
    U32,
    I32,
    U64,
    I64,
    Usize,
    Isize,
    F32,
    F64,
    Bool,
}

/// A built-in classification: a primitive scalar, a string reference
/// (`&str`), or a reference to a slice of built-in elements (`&[T]`).
#[derive(Debug, PartialEq, Eq)]
pub enum BuiltInType {
    Primitive { kind: PrimKind },
    StringRef,
    RefSlice { elem: Box<BuiltInType> },
}

/// The primitive kind a type name denotes, if any.
pub open spec fn prim_of_name(name: Seq<char>) -> Option<PrimKind> {
    if name == "u8"@ {
        Some(PrimKind::U8)
    } else if name == "i8"@ {
        Some(PrimKind::I8)
    } else if name == "u16"@ {
        Some(PrimKind::U16)
    } else if name == "i16"@ {
        Some(PrimKind::I16)
    } else if name == "u32"@ {
        Some(PrimKind::U32)
    } else if name == "i32"@ {
        Some(PrimKind::I32)
    } else if name == "u64"@ {
        Some(PrimKind::U64)
    } else if name == "i64"@ {
        Some(PrimKind::I64)
    } else if name == "usize"@ {
        Some(PrimKind::Usize)
    } else if name == "isize"@ {
        Some(PrimKind::Isize)
    } else if name == "f32"@ {
        Some(PrimKind::F32)
    } else if name == "f64"@ {
        Some(PrimKind::F64)
    } else if name == "bool"@ {
        Some(PrimKind::Bool)
    } else {
        None
    }
}

/// Classification of a type expression: `Some` of its built-in kind, or
/// `None` when the type is opaque and must cross as an untyped pointer.
///
/// Only three shapes are built-in: a primitive type name, a reference to
/// `str`, and a reference to a slice whose element is itself built-in.
/// Everything else — including references to primitives — is opaque.
pub open spec fn classify_spec(t: TypeExpr) -> Option<BuiltInType>
    decreases t,
{
    match t {
        TypeExpr::Path { name } => match prim_of_name(name@) {
            Some(kind) => Some(BuiltInType::Primitive { kind }),
            None => None,
        },
        TypeExpr::Reference { elem, .. } => match *elem {
            TypeExpr::Path { name } => if name@ == "str"@ {
                Some(BuiltInType::StringRef)
            } else {
                None
            },
            TypeExpr::Slice { elem: slice_elem } => match classify_spec(*slice_elem) {
                Some(inner) => Some(BuiltInType::RefSlice { elem: Box::new(inner) }),
                None => None,
            },
            _ => None,
        },
        TypeExpr::Slice { .. } => None,
    }
}

/// Compare an identifier against a fixed name.
pub(crate) fn str_eq(a: &String, b: &str) -> (r: bool)
    ensures
        r == (a@ == b@),
{
    *a == b.to_owned()
}

/// The primitive kind a type name denotes, if any.
pub fn prim_for_name(name: &String) -> (r: Option<PrimKind>)
    ensures
        r == prim_of_name(name@),
{
    if str_eq(name, "u8") {
        Some(PrimKind::U8)
    } else if str_eq(name, "i8") {
        Some(PrimKind::I8)
    } else if str_eq(name, "u16") {
        Some(PrimKind::U16)
    } else if str_eq(name, "i16") {
        Some(PrimKind::I16)
    } else if str_eq(name, "u32") {
        Some(PrimKind::U32)
    } else if str_eq(name, "i32") {
        Some(PrimKind::I32)
    } else if str_eq(name, "u64") {
        Some(PrimKind::U64)
    } else if str_eq(name, "i64") {
        Some(PrimKind::I64)
    } else if str_eq(name, "usize") {
        Some(PrimKind::Usize)
    } else if str_eq(name, "isize") {
        Some(PrimKind::Isize)
    } else if str_eq(name, "f32") {
        Some(PrimKind::F32)
    } else if str_eq(name, "f64") {
        Some(PrimKind::F64)
    } else if str_eq(name, "bool") {
        Some(PrimKind::Bool)
    } else {
        None
    }
}

/// Classify a type expression; `None` means opaque.
pub fn classify(t: &TypeExpr) -> (r: Option<BuiltInType>)
    ensures
        r == classify_spec(*t),
    decreases *t,
{
    match t {
        TypeExpr::Path { name } => match prim_for_name(name) {
            Some(kind) => Some(BuiltInType::Primitive { kind }),
            None => None,
        },
        TypeExpr::Reference { elem, .. } => match &**elem {
            TypeExpr::Path { name } => if str_eq(name, "str") {
                Some(BuiltInType::StringRef)
            } else {
                None
            },
            TypeExpr::Slice { elem: slice_elem } => match classify(slice_elem) {
                Some(inner) => Some(BuiltInType::RefSlice { elem: Box::new(inner) }),
                None => None,
            },
            _ => None,
        },
        TypeExpr::Slice { .. } => None,
    }
}

/// The C spelling of a primitive kind.
pub open spec fn c_prim_spec(kind: PrimKind) -> Seq<char> {
    match kind {
        PrimKind::U8 => "uint8_t"@,
        PrimKind::I8 => "int8_t"@,
        PrimKind::U16 => "uint16_t"@,
        PrimKind::I16 => "int16_t"@,
        PrimKind::U32 => "uint32_t"@,
        PrimKind::I32 => "int32_t"@,
        PrimKind::U64 => "uint64_t"@,
        PrimKind::I64 => "int64_t"@,
        PrimKind::Usize => "uintptr_t"@,
        PrimKind::Isize => "intptr_t"@,
        PrimKind::F32 => "float"@,
        PrimKind::F64 => "double"@,
        PrimKind::Bool => "bool"@,
    }
}

/// The C spelling of a built-in classification. String references and
/// slice references have no C-level structure of their own: both cross the
/// boundary as untyped pointers.
pub open spec fn c_type_spec(b: BuiltInType) -> Seq<char> {
    match b {
        BuiltInType::Primitive { kind } => c_prim_spec(kind),
        BuiltInType::StringRef => "void*"@,
        BuiltInType::RefSlice { .. } => "void*"@,
    }
}

/// The C spelling of a built-in classification.
pub fn c_type(b: &BuiltInType) -> (r: String)
    ensures
        r@ == c_type_spec(*b),
{
    match b {
        BuiltInType::Primitive { kind } => match kind {
            PrimKind::U8 => "uint8_t".to_owned(),
            PrimKind::I8 => "int8_t".to_owned(),
            PrimKind::U16 => "uint16_t".to_owned(),
            PrimKind::I16 => "int16_t".to_owned(),
            PrimKind::U32 => "uint32_t".to_owned(),
            PrimKind::I32 => "int32_t".to_owned(),
            PrimKind::U64 => "uint64_t".to_owned(),
            PrimKind::I64 => "int64_t".to_owned(),
            PrimKind::Usize => "uintptr_t".to_owned(),
            PrimKind::Isize => "intptr_t".to_owned(),
            PrimKind::F32 => "float".to_owned(),
            PrimKind::F64 => "double".to_owned(),
            PrimKind::Bool => "bool".to_owned(),
        },
        BuiltInType::StringRef => "void*".to_owned(),
        BuiltInType::RefSlice { .. } => "void*".to_owned(),
    }
}

/// Whether a built-in classification requires the fixed-width-integer
/// header in generated C output: true exactly for the integer primitives.
pub open spec fn needs_int_header_spec(b: BuiltInType) -> bool {
    match b {
        BuiltInType::Primitive { kind } => match kind {
            PrimKind::F32 => false,
            PrimKind::F64 => false,
            PrimKind::Bool => false,
            _ => true,
        },
        _ => false,
    }
}

/// Whether a built-in classification requires the fixed-width-integer
/// header in generated C output.
pub fn needs_include_int_header(b: &BuiltInType) -> (r: bool)
    ensures
        r == needs_int_header_spec(*b),
{
    match b {
        BuiltInType::Primitive { kind } => match kind {
            PrimKind::F32 => false,
            PrimKind::F64 => false,
            PrimKind::Bool => false,
            _ => true,
        },
        _ => false,
    }
}

/// The source spelling of a type expression.
pub open spec fn render_type_spec(t: TypeExpr) -> Seq<char>
    decreases t,
{
    match t {
        TypeExpr::Path { name } => name@,
        TypeExpr::Reference { lifetime, mutable, elem } => "&"@ + (match lifetime {
            Some(lt) => "'"@ + lt@ + " "@,
            None => Seq::<char>::empty(),
        }) + (if mutable {
            "mut "@
        } else {
            Seq::<char>::empty()
        }) + render_type_spec(*elem),
        TypeExpr::Slice { elem } => "["@ + render_type_spec(*elem) + "]"@,
    }
}

/// Render a type expression back to its source spelling.
pub fn render_type(t: &TypeExpr) -> (r: String)
    ensures
        r@ == render_type_spec(*t),
    decreases *t,
{
    match t {
        TypeExpr::Path { name } => name.clone(),
        TypeExpr::Reference { lifetime, mutable, elem } => {
            let mut r = "&".to_owned();
            match lifetime {
                Some(lt) => {
                    r.append("'");
                    r.append(lt.as_str());
                    r.append(" ");
                },
                None => {},
            }
            if *mutable {
                r.append("mut ");
            }
            let elem_str = render_type(elem);
            r.append(elem_str.as_str());
            r
        },
        TypeExpr::Slice { elem } => {
            let mut r = "[".to_owned();
            let elem_str = render_type(elem);
            r.append(elem_str.as_str());
            r.append("]");
            r
        },
    }
}

/// The element a pointer to an opaque value points at: the referent when
/// the type is a reference, the type itself otherwise. The pointer always
/// points at the underlying opaque value, never at a reference to it.
pub open spec fn pointee_spec(t: TypeExpr) -> TypeExpr {
    match t {
        TypeExpr::Reference { elem, .. } => *elem,
        _ => t,
    }
}

impl Clone for TypeExpr {
    /// Clones preserve the value exactly.
    fn clone(&self) -> (r: Self)
        ensures
            r == *self,
        decreases *self,
    {
        match self {
            TypeExpr::Path { name } => TypeExpr::Path { name: name.clone() },
            TypeExpr::Reference { lifetime, mutable, elem } => TypeExpr::Reference {
                lifetime: match lifetime {
                    Some(lt) => Some(lt.clone()),
                    None => None,
                },
                mutable: *mutable,
                elem: Box::new((**elem).clone()),
            },
            TypeExpr::Slice { elem } => TypeExpr::Slice { elem: Box::new((**elem).clone()) },
        }
    }
}

} // verus!
