//! ABI parameter lowering: the parameter list of the low-level transfer
//! function that actually crosses the boundary.
//!
//! Applied per parameter, in the descriptor's order: the receiver becomes a
//! single pointer parameter named `this`, typed as a pointer to the owning
//! type; a built-in-typed parameter is passed through unchanged, name and
//! type preserved verbatim; an opaque-typed parameter is rewritten to a
//! pointer to the underlying opaque value (the referent, when the original
//! type was a reference), and is renamed to `this` in the one special case
//! where a non-receiver parameter is literally named `self`.

use vstd::prelude::*;

use crate::sig::Param;
use crate::sig::ParsedExternFn;
use crate::ty::classify;
use crate::ty::classify_spec;
use crate::ty::pointee_spec;
use crate::ty::render_type;
use crate::ty::render_type_spec;
use crate::ty::TypeExpr;

verus! {

/// The type of one lowered ABI parameter: a built-in type kept verbatim, or
/// a raw pointer to a named target type.
#[derive(Debug, PartialEq, Eq)]
pub enum AbiType {
    Plain { ty: TypeExpr },
    MutPtr { target: String },
}

/// One parameter of the transfer function.
#[derive(Debug, PartialEq, Eq)]
pub struct AbiParam {
    pub name: String,
    pub ty: AbiType,
}

/// The mathematical value of an `AbiType`.
pub ghost enum AbiTypeV {
    Plain { ty: TypeExpr },
    MutPtr { target: Seq<char> },
}

/// The mathematical value of an `AbiParam`.
pub ghost struct AbiParamV {
    pub name: Seq<char>,
    pub ty: AbiTypeV,
}

impl View for AbiType {
    type V = AbiTypeV;

    open spec fn view(&self) -> AbiTypeV {
        match self {
            AbiType::Plain { ty } => AbiTypeV::Plain { ty: *ty },
            AbiType::MutPtr { target } => AbiTypeV::MutPtr { target: target@ },
        }
    }
}

impl DeepView for AbiType {
    type V = AbiTypeV;

    open spec fn deep_view(&self) -> AbiTypeV {
        self.view()
    }
}

impl View for AbiParam {
    type V = AbiParamV;

    open spec fn view(&self) -> AbiParamV {
        AbiParamV { name: self.name@, ty: self.ty@ }
    }
}

impl DeepView for AbiParam {
    type V = AbiParamV;

    open spec fn deep_view(&self) -> AbiParamV {
        self.view()
    }
}

/// The ABI lowering of one parameter. The receiver lowers to `this`,
/// pointing at the owning type; a built-in parameter is kept verbatim; an
/// opaque parameter becomes a pointer to its underlying value, renamed to
/// `this` when the parameter itself is literally named `self`.
pub open spec fn abi_param_spec(p: Param, owning_type: Option<String>) -> AbiParamV {
    match p {
        Param::Receiver { .. } => AbiParamV {
            name: "this"@,
            ty: AbiTypeV::MutPtr {
                target: match owning_type {
                    Some(t) => t@,
                    None => Seq::empty(),
                },
            },
        },
        Param::Named { name, ty } => match classify_spec(ty) {
            Some(_) => AbiParamV { name: name@, ty: AbiTypeV::Plain { ty } },
            None => AbiParamV {
                name: if name@ == "self"@ {
                    "this"@
                } else {
                    name@
                },
                ty: AbiTypeV::MutPtr { target: render_type_spec(pointee_spec(ty)) },
            },
        },
    }
}

/// The ABI lowering of a whole parameter list: one entry per parameter, in
/// the descriptor's order.
pub open spec fn abi_params_spec(ps: Seq<Param>, owning_type: Option<String>) -> Seq<AbiParamV> {
    ps.map_values(|p: Param| abi_param_spec(p, owning_type))
}

/// Lower one parameter.
fn lower_abi_param(p: &Param, owning_type: &Option<String>) -> (r: AbiParam)
    requires
        *p is Receiver ==> *owning_type is Some,
    ensures
        r@ == abi_param_spec(*p, *owning_type),
{
    match p {
        Param::Receiver { .. } => {
            let target = match owning_type {
                Some(t) => t.clone(),
                None => {
                    assert(false);
                    String::new()
                },
            };
            AbiParam { name: "this".to_owned(), ty: AbiType::MutPtr { target } }
        },
        Param::Named { name, ty } => match classify(ty) {
            Some(_) => AbiParam { name: name.clone(), ty: AbiType::Plain { ty: ty.clone() } },
            None => {
                let target = match ty {
                    TypeExpr::Reference { elem, .. } => render_type(&**elem),
                    _ => render_type(ty),
                };
                let lowered_name = if crate::ty::str_eq(name, "self") {
                    "this".to_owned()
                } else {
                    name.clone()
                };
                AbiParam { name: lowered_name, ty: AbiType::MutPtr { target } }
            },
        },
    }
}

impl ParsedExternFn {
    /// The parameter list of the transfer function, one entry per
    /// descriptor parameter, in order.
    pub fn to_extern_c_param_names_and_types(&self) -> (r: Vec<AbiParam>)
        requires
            self.wf(),
        ensures
            r.deep_view() == abi_params_spec(self.params@, self.associated_type),
    {
        let mut out: Vec<AbiParam> = Vec::new();
        for i in 0..self.params.len()
            invariant
                self.wf(),
                out.deep_view() =~= abi_params_spec(
                    self.params@.take(i as int),
                    self.associated_type,
                ),
        {
            let ap = lower_abi_param(&self.params[i], &self.associated_type);
            out.push(ap);
            proof {
                assert(abi_params_spec(self.params@.take(i + 1), self.associated_type)
                    =~= abi_params_spec(self.params@.take(i as int), self.associated_type).push(
                    abi_param_spec(self.params@[i as int], self.associated_type),
                ));
            }
        }
        proof {
            assert(self.params@.take(self.params@.len() as int) =~= self.params@);
        }
        out
    }
}

/// The rendered form of one ABI parameter type.
pub open spec fn render_abi_type_spec(t: AbiTypeV) -> Seq<char> {
    match t {
        AbiTypeV::Plain { ty } => render_type_spec(ty),
        AbiTypeV::MutPtr { target } => "*mut "@ + target,
    }
}

/// The rendered form of one ABI parameter, `name: type`.
pub open spec fn render_abi_param_spec(a: AbiParamV) -> Seq<char> {
    a.name + ": "@ + render_abi_type_spec(a.ty)
}

/// Render one ABI parameter as `name: type`.
pub fn render_abi_param(a: &AbiParam) -> (r: String)
    ensures
        r@ == render_abi_param_spec(a@),
{
    let mut r = a.name.clone();
    r.append(": ");
    match &a.ty {
        AbiType::Plain { ty } => {
            let t = render_type(ty);
            r.append(t.as_str());
        },
        AbiType::MutPtr { target } => {
            r.append("*mut ");
            r.append(target.as_str());
        },
    }
    r
}

} // verus!
