//! Header rendering: the textual declaration of a bridged function for a
//! C-compatible header, and the return spelling of the generated transfer
//! function.
//!
//! In the header, the receiver and any parameter literally named `self`
//! render as `void* self`, a built-in parameter as its C spelling followed
//! by its name, and any other parameter as `void*` followed by its name; an
//! empty parameter list renders as `void`.

use vstd::prelude::*;

use crate::sig::Param;
use crate::sig::ParsedExternFn;
use crate::strutil::comma_join;
use crate::strutil::lemma_take_succ;
use crate::ty::c_type;
use crate::ty::c_type_spec;
use crate::ty::classify;
use crate::ty::classify_spec;
use crate::ty::BuiltInType;
use crate::ty::PrimKind;
use crate::ty::TypeExpr;

verus! {

/// The header rendering of one parameter.
pub open spec fn header_param_spec(p: Param) -> Seq<char> {
    match p {
        Param::Receiver { .. } => "void* self"@,
        Param::Named { name, ty } => if name@ == "self"@ {
            "void* self"@
        } else {
            match classify_spec(ty) {
                Some(b) => c_type_spec(b) + " "@ + name@,
                None => "void* "@ + name@,
            }
        },
    }
}

/// The header renderings of a whole parameter list: one entry per
/// parameter, in the descriptor's order.
pub open spec fn header_param_list_spec(ps: Seq<Param>) -> Seq<Seq<char>> {
    ps.map_values(|p: Param| header_param_spec(p))
}

/// The header parameter string: `void` for an empty list, the comma-joined
/// renderings otherwise.
pub open spec fn header_params_spec(ps: Seq<Param>) -> Seq<char> {
    if ps.len() == 0 {
        "void"@
    } else {
        comma_join(header_param_list_spec(ps))
    }
}

/// The header rendering of the return type: `void` when there is none, the
/// C spelling of a built-in return, `void*` for an opaque one.
pub open spec fn header_return_spec(ret: Option<TypeExpr>) -> Seq<char> {
    match ret {
        None => "void"@,
        Some(t) => match classify_spec(t) {
            Some(b) => c_type_spec(b),
            None => "void*"@,
        },
    }
}

/// Render one parameter for the header.
fn render_header_param(p: &Param) -> (r: String)
    ensures
        r@ == header_param_spec(*p),
{
    match p {
        Param::Receiver { .. } => "void* self".to_owned(),
        Param::Named { name, ty } => {
            if crate::ty::str_eq(name, "self") {
                "void* self".to_owned()
            } else {
                match classify(ty) {
                    Some(b) => {
                        let mut r = c_type(&b);
                        r.append(" ");
                        r.append(name.as_str());
                        r
                    },
                    None => {
                        let mut r = "void* ".to_owned();
                        r.append(name.as_str());
                        r
                    },
                }
            }
        },
    }
}

impl ParsedExternFn {
    /// The parameter list of the function's C header declaration.
    pub fn to_c_header_params(&self) -> (r: String)
        ensures
            r@ == header_params_spec(self.params@),
    {
        if self.params.len() == 0 {
            return "void".to_owned();
        }
        let ghost rendered = header_param_list_spec(self.params@);
        let mut r = String::new();
        for i in 0..self.params.len()
            invariant
                rendered == header_param_list_spec(self.params@),
                rendered.len() == self.params@.len(),
                r@ =~= comma_join(rendered.take(i as int)),
        {
            if i > 0 {
                r.append(", ");
            }
            let item = render_header_param(&self.params[i]);
            r.append(item.as_str());
            proof {
                lemma_take_succ(rendered, i as int);
            }
        }
        proof {
            assert(rendered.take(rendered.len() as int) =~= rendered);
        }
        r
    }

    /// The return spelling of the function's C header declaration.
    pub fn to_c_header_return(&self) -> (r: String)
        ensures
            r@ == header_return_spec(self.ret),
    {
        match &self.ret {
            None => "void".to_owned(),
            Some(t) => match classify(t) {
                Some(b) => c_type(&b),
                None => "void*".to_owned(),
            },
        }
    }
}

/// The source spelling of a primitive kind.
pub open spec fn rust_prim_spec(kind: PrimKind) -> Seq<char> {
    match kind {
        PrimKind::U8 => "u8"@,
        PrimKind::I8 => "i8"@,
        PrimKind::U16 => "u16"@,
        PrimKind::I16 => "i16"@,
        PrimKind::U32 => "u32"@,
        PrimKind::I32 => "i32"@,
        PrimKind::U64 => "u64"@,
        PrimKind::I64 => "i64"@,
        PrimKind::Usize => "usize"@,
        PrimKind::Isize => "isize"@,
        PrimKind::F32 => "f32"@,
        PrimKind::F64 => "f64"@,
        PrimKind::Bool => "bool"@,
    }
}

/// The spelling of a built-in type in the transfer function's signature: a
/// primitive spells itself, a string reference and a slice reference use
/// the support types under the given bridge path.
pub open spec fn extern_rust_type_spec(b: BuiltInType, path: Seq<char>) -> Seq<char>
    decreases b,
{
    match b {
        BuiltInType::Primitive { kind } => rust_prim_spec(kind),
        BuiltInType::StringRef => path + "::string::RustStr"@,
        BuiltInType::RefSlice { elem } => path + "::slice::RustSlice<"@ + extern_rust_type_spec(
            *elem,
            path,
        ) + ">"@,
    }
}

/// The return spelling of the generated transfer function: empty when the
/// function returns nothing, an arrow and the built-in spelling for a
/// built-in return, an arrow and an untyped pointer for an opaque one.
pub open spec fn rust_return_type_spec(ret: Option<TypeExpr>, path: Seq<char>) -> Seq<char> {
    match ret {
        None => Seq::empty(),
        Some(t) => match classify_spec(t) {
            Some(b) => "-> "@ + extern_rust_type_spec(b, path),
            None => "-> *mut std::ffi::c_void"@,
        },
    }
}

/// Spell a built-in type for the transfer function's signature.
fn render_extern_rust_type(b: &BuiltInType, path: &str) -> (r: String)
    ensures
        r@ == extern_rust_type_spec(*b, path@),
    decreases *b,
{
    match b {
        BuiltInType::Primitive { kind } => match kind {
            PrimKind::U8 => "u8".to_owned(),
            PrimKind::I8 => "i8".to_owned(),
            PrimKind::U16 => "u16".to_owned(),
            PrimKind::I16 => "i16".to_owned(),
            PrimKind::U32 => "u32".to_owned(),
            PrimKind::I32 => "i32".to_owned(),
            PrimKind::U64 => "u64".to_owned(),
            PrimKind::I64 => "i64".to_owned(),
            PrimKind::Usize => "usize".to_owned(),
            PrimKind::Isize => "isize".to_owned(),
            PrimKind::F32 => "f32".to_owned(),
            PrimKind::F64 => "f64".to_owned(),
            PrimKind::Bool => "bool".to_owned(),
        },
        BuiltInType::StringRef => {
            let mut r = path.to_owned();
            r.append("::string::RustStr");
            r
        },
        BuiltInType::RefSlice { elem } => {
            let mut r = path.to_owned();
            r.append("::slice::RustSlice<");
            let inner = render_extern_rust_type(&**elem, path);
            r.append(inner.as_str());
            r.append(">");
            r
        },
    }
}

impl ParsedExternFn {
    /// The return spelling of the generated transfer function, given the
    /// path under which the bridge support types are reachable.
    pub fn rust_return_type(&self, swift_bridge_path: &str) -> (r: String)
        ensures
            r@ == rust_return_type_spec(self.ret, swift_bridge_path@),
    {
        match &self.ret {
            None => String::new(),
            Some(t) => match classify(t) {
                Some(b) => {
                    let mut r = "-> ".to_owned();
                    let spelled = render_extern_rust_type(&b, swift_bridge_path);
                    r.append(spelled.as_str());
                    r
                },
                None => "-> *mut std::ffi::c_void".to_owned(),
            },
        }
    }
}

} // verus!
