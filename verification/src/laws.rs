//! The guarantees that hold across the independently generated artifacts.
//!
//! Each lemma is stated over the same spec functions the lowering
//! operations' contracts use, so what is proved here is exactly what a
//! caller of those operations can rely on.

use vstd::prelude::*;

use crate::abi::abi_param_spec;
use crate::abi::abi_params_spec;
use crate::call::call_arg_contrib;
use crate::call::CallArgV;
use crate::header::header_param_list_spec;
use crate::header::header_param_spec;
use crate::sig::is_receiver_form;
use crate::sig::HostLang;
use crate::sig::Param;
use crate::sig::ParsedExternFn;
use crate::ty::c_type_spec;
use crate::ty::classify_spec;
use crate::ty::TypeExpr;

verus! {

/// Every receiver form — by value, by reference, by mutable reference, or
/// explicitly typed as `self: Type` / `self: &Type` / `self: &mut Type` —
/// lowers to an ABI slot named `this`, and contributes no positional call
/// argument: its only possible contribution to the call-argument list is
/// the proxy's handle access. An explicitly typed receiver's type is the
/// declared owning type, so it classifies as opaque; the hypothesis records
/// that.
pub proof fn lemma_receiver_lowering(p: Param, owning_type: Option<String>, host: HostLang)
    requires
        is_receiver_form(p),
        p matches Param::Named { ty, .. } ==> classify_spec(ty) is None,
    ensures
        abi_param_spec(p, owning_type).name == "this"@,
        forall|i: int|
            0 <= i < call_arg_contrib(p, host).len() ==> call_arg_contrib(p, host)[i]
                == CallArgV::SelfAccess,
{
}

/// A named parameter that is not the receiver renders in the header as
/// exactly `void* name` when its type is opaque, and as the classifier's C
/// spelling followed by the name when its type is built-in.
pub proof fn lemma_header_param_rendering(name: String, ty: TypeExpr)
    requires
        name@ != "self"@,
    ensures
        classify_spec(ty) is None ==> header_param_spec(Param::Named { name, ty }) == "void* "@
            + name@,
        classify_spec(ty) matches Some(b) ==> header_param_spec(Param::Named { name, ty })
            == c_type_spec(b) + " "@ + name@,
{
}

/// Round trip: the ABI parameter list and the header parameter list have
/// the same count of entries as the descriptor's parameter list — receiver
/// and `self`-named parameters included — and entry `i` of each is derived
/// from the descriptor's parameter `i`, so the two lists agree in count and
/// order.
pub proof fn lemma_abi_header_round_trip(f: ParsedExternFn)
    ensures
        abi_params_spec(f.params@, f.associated_type).len() == f.params@.len(),
        header_param_list_spec(f.params@).len() == f.params@.len(),
        forall|i: int|
            0 <= i < f.params@.len() ==> abi_params_spec(f.params@, f.associated_type)[i]
                == abi_param_spec(#[trigger] f.params@[i], f.associated_type),
        forall|i: int|
            0 <= i < f.params@.len() ==> header_param_list_spec(f.params@)[i] == header_param_spec(
                #[trigger] f.params@[i],
            ),
{
}

} // verus!
