//! The signature descriptor: a parsed bridged-function signature plus its
//! resolved metadata, the single source of truth from which every boundary
//! artifact is derived.
//!
//! A descriptor owns the ordered parameter list (receiver first, when one
//! exists), the return type, the optional owning-type name, the constructor
//! flag, and the flag saying which runtime hosts the real implementation.
//! It is built once by the upstream parser and read by every downstream
//! generator, so the generated artifacts cannot drift apart.

use vstd::prelude::*;

use crate::mangle::link_symbol;
use crate::mangle::link_symbol_spec;
use crate::mangle::prefixed_identifier;
use crate::mangle::prefixed_identifier_spec;
use crate::swift_bridge_prefix;
use crate::swift_bridge_prefix_spec;
use crate::ty::classify;
use crate::ty::classify_spec;
use crate::ty::needs_include_int_header;
use crate::ty::needs_int_header_spec;
use crate::ty::BuiltInType;
use crate::ty::TypeExpr;

verus! {

/// Which of the two runtimes hosts the real implementation of a bridged
/// function.
#[derive(Clone, Copy, Debug, PartialEq, Eq, Structural)]
pub enum HostLang {
    Rust,
    Swift,
}

impl HostLang {
    pub fn is_swift(&self) -> (r: bool)
        ensures
            r == (*self is Swift),
    {
        match self {
            HostLang::Swift => true,
            HostLang::Rust => false,
        }
    }

    pub fn is_rust(&self) -> (r: bool)
        ensures
            r == (*self is Rust),
    {
        match self {
            HostLang::Rust => true,
            HostLang::Swift => false,
        }
    }
}

/// How a syntactic receiver is taken: by value (`self`) or by reference
/// (`&self` / `&'a mut self`), with the lifetime name stored without its
/// apostrophe.
#[derive(Debug, PartialEq, Eq)]
pub enum SelfKind {
    Value,
    Ref { lifetime: Option<String>, mutable: bool },
}

/// One parameter of a bridged signature: the syntactic receiver, or a
/// named, typed parameter. A parameter typed explicitly as `self: Type`,
/// `self: &Type` or `self: &mut Type` is represented as a named parameter
/// whose name is literally `self`.
#[derive(Debug, PartialEq, Eq)]
pub enum Param {
    Receiver { kind: SelfKind },
    Named { name: String, ty: TypeExpr },
}

/// Whether a parameter fills the receiver role when it stands first: the
/// syntactic receiver, or a parameter literally named `self`.
pub open spec fn is_receiver_form(p: Param) -> bool {
    match p {
        Param::Receiver { .. } => true,
        Param::Named { name, .. } => name@ == "self"@,
    }
}

/// The view of an optional name.
pub open spec fn opt_name_view(o: Option<String>) -> Option<Seq<char>> {
    match o {
        Some(s) => Some(s@),
        None => None,
    }
}

/// A bridged function signature with its resolved metadata.
#[derive(Debug)]
pub struct ParsedExternFn {
    /// The function's own name.
    pub fn_name: String,
    /// The parameters, in source order, the receiver (if any) first.
    pub params: Vec<Param>,
    /// The return type; `None` when the function returns nothing.
    pub ret: Option<TypeExpr>,
    /// The owning type, for methods and associated functions.
    pub associated_type: Option<String>,
    /// Whether the function is a constructor of its owning type.
    pub is_initializer: bool,
    /// Which runtime hosts the real implementation.
    pub host_lang: HostLang,
}

impl ParsedExternFn {
    /// The structural invariant the upstream parser establishes: a receiver
    /// stands only in the first slot, and a signature with a receiver always
    /// has an owning type.
    pub open spec fn wf(self) -> bool {
        &&& forall|i: int|
            1 <= i < self.params@.len() ==> !(#[trigger] self.params@[i] is Receiver)
        &&& (self.params@.len() > 0 && self.params@[0] is Receiver
            ==> self.associated_type is Some)
    }

    /// The receiver parameter, when one is present: the first parameter, if
    /// it is the syntactic receiver or is literally named `self`.
    pub open spec fn receiver_spec(self) -> Option<Param> {
        if self.params@.len() > 0 && is_receiver_form(self.params@[0]) {
            Some(self.params@[0])
        } else {
            None
        }
    }

    pub open spec fn is_method_spec(self) -> bool {
        self.receiver_spec() is Some
    }

    /// True iff a receiver parameter is present.
    pub fn is_method(&self) -> (r: bool)
        ensures
            r == self.is_method_spec(),
    {
        if self.params.len() == 0 {
            return false;
        }
        match &self.params[0] {
            Param::Receiver { .. } => true,
            Param::Named { name, .. } => crate::ty::str_eq(name, "self"),
        }
    }

    /// The reference taken by the receiver, if it is taken by reference:
    /// `Some(lifetime)` for `&self`, `&'a self`, `&mut self` and the
    /// explicitly typed `self: &Type` forms; `None` for a by-value receiver
    /// or a receiver-less function.
    pub open spec fn self_reference_spec(self) -> Option<Option<Seq<char>>> {
        match self.receiver_spec() {
            None => None,
            Some(p) => match p {
                Param::Receiver { kind } => match kind {
                    SelfKind::Ref { lifetime, .. } => Some(opt_name_view(lifetime)),
                    SelfKind::Value => None,
                },
                Param::Named { ty, .. } => match ty {
                    TypeExpr::Reference { lifetime, .. } => Some(opt_name_view(lifetime)),
                    _ => None,
                },
            },
        }
    }

    /// The reference marker of the receiver: present iff the receiver is
    /// passed by reference, carrying the lifetime name when one is written.
    pub fn self_reference(&self) -> (r: Option<Option<String>>)
        ensures
            (match r {
                Some(lt) => Some(opt_name_view(lt)),
                None => None,
            }) == self.self_reference_spec(),
    {
        if self.params.len() == 0 {
            return None;
        }
        match &self.params[0] {
            Param::Receiver { kind } => match kind {
                SelfKind::Ref { lifetime, .. } => Some(clone_opt_name(lifetime)),
                SelfKind::Value => None,
            },
            Param::Named { name, ty } => {
                if !crate::ty::str_eq(name, "self") {
                    return None;
                }
                match ty {
                    TypeExpr::Reference { lifetime, .. } => Some(clone_opt_name(lifetime)),
                    _ => None,
                }
            },
        }
    }

    /// Whether the receiver is taken by mutable reference, directly
    /// (`&mut self`) or via an explicitly typed `self: &mut Type`.
    pub open spec fn self_mutability_spec(self) -> bool {
        match self.receiver_spec() {
            None => false,
            Some(p) => match p {
                Param::Receiver { kind } => match kind {
                    SelfKind::Ref { mutable, .. } => mutable,
                    SelfKind::Value => false,
                },
                Param::Named { ty, .. } => match ty {
                    TypeExpr::Reference { mutable, .. } => mutable,
                    _ => false,
                },
            },
        }
    }

    /// True iff the receiver is taken by mutable reference.
    pub fn self_mutability(&self) -> (r: bool)
        ensures
            r == self.self_mutability_spec(),
    {
        if self.params.len() == 0 {
            return false;
        }
        match &self.params[0] {
            Param::Receiver { kind } => match kind {
                SelfKind::Ref { mutable, .. } => *mutable,
                SelfKind::Value => false,
            },
            Param::Named { name, ty } => {
                if !crate::ty::str_eq(name, "self") {
                    return false;
                }
                match ty {
                    TypeExpr::Reference { mutable, .. } => *mutable,
                    _ => false,
                }
            },
        }
    }

    pub open spec fn returns_slice_spec(self) -> bool {
        match self.ret {
            Some(t) => classify_spec(t) matches Some(BuiltInType::RefSlice { .. }),
            None => false,
        }
    }

    /// True iff the return type classifies as a reference to a slice.
    pub fn returns_slice(&self) -> (r: bool)
        ensures
            r == self.returns_slice_spec(),
    {
        match &self.ret {
            None => false,
            Some(t) => match classify(t) {
                Some(b) => match b {
                    BuiltInType::RefSlice { .. } => true,
                    _ => false,
                },
                None => false,
            },
        }
    }

    /// Whether one named parameter's type requires the fixed-width-integer
    /// header.
    pub open spec fn param_needs_int_header(p: Param) -> bool {
        match p {
            Param::Named { ty, .. } => match classify_spec(ty) {
                Some(b) => needs_int_header_spec(b),
                None => false,
            },
            Param::Receiver { .. } => false,
        }
    }

    pub open spec fn contains_ints_spec(self) -> bool {
        ||| match self.ret {
            Some(t) => classify_spec(t) matches Some(b) && needs_int_header_spec(b),
            None => false,
        }
        ||| exists|i: int|
            0 <= i < self.params@.len() && Self::param_needs_int_header(#[trigger] self.params@[i])
    }

    /// True iff the return type or any parameter type classifies as a
    /// primitive requiring the fixed-width-integer header in generated C.
    pub fn contains_ints(&self) -> (r: bool)
        ensures
            r == self.contains_ints_spec(),
    {
        match &self.ret {
            Some(t) => match classify(t) {
                Some(b) => {
                    if needs_include_int_header(&b) {
                        return true;
                    }
                },
                None => {},
            },
            None => {},
        }
        for i in 0..self.params.len()
            invariant
                forall|j: int| 0 <= j < i ==> !Self::param_needs_int_header(#[trigger] self.params@[j]),
        {
            match &self.params[i] {
                Param::Named { ty, .. } => match classify(ty) {
                    Some(b) => {
                        if needs_include_int_header(&b) {
                            return true;
                        }
                    },
                    None => {},
                },
                Param::Receiver { .. } => {},
            }
        }
        false
    }

    /// The link symbol tying the three generated artifacts together:
    /// `prefix$Type$func` for associated functions, `prefix$func` for free
    /// functions.
    pub fn link_name(&self) -> (r: String)
        ensures
            r@ == link_symbol_spec(
                swift_bridge_prefix_spec(),
                opt_name_view(self.associated_type),
                self.fn_name@,
            ),
    {
        link_symbol(
            swift_bridge_prefix(),
            match &self.associated_type {
                Some(t) => Some(t.as_str()),
                None => None,
            },
            self.fn_name.as_str(),
        )
    }

    /// The prefixed local identifier of the generated transfer function:
    /// `prefixType_func` for associated functions, `prefixfunc` for free
    /// functions.
    pub fn prefixed_fn_name(&self) -> (r: String)
        ensures
            r@ == prefixed_identifier_spec(
                swift_bridge_prefix_spec(),
                opt_name_view(self.associated_type),
                self.fn_name@,
            ),
    {
        prefixed_identifier(
            swift_bridge_prefix(),
            match &self.associated_type {
                Some(t) => Some(t.as_str()),
                None => None,
            },
            self.fn_name.as_str(),
        )
    }

    /// The name of the generated function that links against the
    /// implementation hosted on the foreign side. It coincides with the
    /// prefixed identifier, and the shared contract keeps the two in step.
    pub fn extern_swift_linked_fn_new(&self) -> (r: String)
        ensures
            r@ == prefixed_identifier_spec(
                swift_bridge_prefix_spec(),
                opt_name_view(self.associated_type),
                self.fn_name@,
            ),
    {
        self.prefixed_fn_name()
    }
}

/// Clone an optional lifetime name.
fn clone_opt_name(o: &Option<String>) -> (r: Option<String>)
    ensures
        opt_name_view(r) == opt_name_view(*o),
{
    match o {
        Some(s) => Some(s.clone()),
        None => None,
    }
}

} // verus!
