//! Call-site reconstruction: the expression list used inside the generated
//! transfer function to call the original high-level function from the
//! lowered raw arguments.
//!
//! In the descriptor's parameter order: the receiver is omitted when the
//! implementation lives on the same side as the generated wrapper, and
//! contributes the proxy's handle access when it lives on the other side; a
//! built-in parameter is passed through by name; an opaque parameter is
//! reconstructed by dereferencing its raw pointer, with the original
//! reference or mutable-reference qualifier applied back. The by-value
//! dereference is an ownership transfer: the pointer is consumed, and must
//! be valid for exactly one such consuming dereference. A non-receiver
//! parameter literally named `self` is treated like the receiver and leaves
//! the positional list.

use vstd::prelude::*;

use crate::sig::HostLang;
use crate::sig::Param;
use crate::sig::ParsedExternFn;
use crate::strutil::comma_join;
use crate::strutil::lemma_take_succ;
use crate::ty::classify;
use crate::ty::classify_spec;
use crate::ty::TypeExpr;

verus! {

/// How an opaque raw pointer is turned back into the original argument:
/// consumed (a by-value parameter moves the value out of the pointer),
/// borrowed, or mutably borrowed.
#[derive(Clone, Copy, Debug, PartialEq, Eq, Structural)]
pub enum DerefMode {
    Consuming,
    Borrowed,
    BorrowedMut,
}

/// One reconstructed call argument.
#[derive(Debug, PartialEq, Eq)]
pub enum CallArg {
    /// The handle the proxy holds, unwrapped: the receiver's contribution
    /// when the implementation lives on the other side.
    SelfAccess,
    /// A built-in argument, passed through by name.
    Plain { name: String },
    /// An opaque argument, rebuilt by dereferencing its raw pointer.
    Deref { name: String, mode: DerefMode },
}

/// The mathematical value of a `CallArg`.
pub ghost enum CallArgV {
    SelfAccess,
    Plain { name: Seq<char> },
    Deref { name: Seq<char>, mode: DerefMode },
}

impl View for CallArg {
    type V = CallArgV;

    open spec fn view(&self) -> CallArgV {
        match self {
            CallArg::SelfAccess => CallArgV::SelfAccess,
            CallArg::Plain { name } => CallArgV::Plain { name: name@ },
            CallArg::Deref { name, mode } => CallArgV::Deref { name: name@, mode: *mode },
        }
    }
}

impl DeepView for CallArg {
    type V = CallArgV;

    open spec fn deep_view(&self) -> CallArgV {
        self.view()
    }
}

/// The dereference mode an opaque parameter's type calls for: its original
/// reference qualifier applied back, a by-value parameter consuming the
/// pointer.
pub open spec fn deref_mode_spec(t: TypeExpr) -> DerefMode {
    match t {
        TypeExpr::Reference { mutable, .. } => if mutable {
            DerefMode::BorrowedMut
        } else {
            DerefMode::Borrowed
        },
        _ => DerefMode::Consuming,
    }
}

/// What one parameter contributes to the call-argument list. The receiver,
/// and a parameter literally named `self`, contribute the proxy's handle
/// access when the implementation is hosted on the foreign side and nothing
/// otherwise; every other parameter contributes exactly one argument.
pub open spec fn call_arg_contrib(p: Param, host: HostLang) -> Seq<CallArgV> {
    match p {
        Param::Receiver { .. } => if host is Swift {
            seq![CallArgV::SelfAccess]
        } else {
            seq![]
        },
        Param::Named { name, ty } => if name@ == "self"@ {
            if host is Swift {
                seq![CallArgV::SelfAccess]
            } else {
                seq![]
            }
        } else {
            match classify_spec(ty) {
                Some(_) => seq![CallArgV::Plain { name: name@ }],
                None => seq![CallArgV::Deref { name: name@, mode: deref_mode_spec(ty) }],
            }
        },
    }
}

/// The call-argument list of a whole parameter list, contributions
/// concatenated in the descriptor's order.
pub open spec fn call_args_spec(ps: Seq<Param>, host: HostLang) -> Seq<CallArgV>
    decreases ps.len(),
{
    if ps.len() == 0 {
        seq![]
    } else {
        call_args_spec(ps.drop_last(), host) + call_arg_contrib(ps.last(), host)
    }
}

impl ParsedExternFn {
    /// The arguments with which the generated transfer function calls the
    /// original function, in the descriptor's parameter order.
    pub fn to_rust_call_args(&self) -> (r: Vec<CallArg>)
        ensures
            r.deep_view() == call_args_spec(self.params@, self.host_lang),
    {
        let mut out: Vec<CallArg> = Vec::new();
        for i in 0..self.params.len()
            invariant
                out.deep_view() =~= call_args_spec(self.params@.take(i as int), self.host_lang),
        {
            let ghost prev = out.deep_view();
            match &self.params[i] {
                Param::Receiver { .. } => {
                    if self.host_lang.is_swift() {
                        out.push(CallArg::SelfAccess);
                    }
                },
                Param::Named { name, ty } => {
                    if crate::ty::str_eq(name, "self") {
                        if self.host_lang.is_swift() {
                            out.push(CallArg::SelfAccess);
                        }
                    } else {
                        match classify(ty) {
                            Some(_) => out.push(CallArg::Plain { name: name.clone() }),
                            None => {
                                let mode = match ty {
                                    TypeExpr::Reference { mutable, .. } => if *mutable {
                                        DerefMode::BorrowedMut
                                    } else {
                                        DerefMode::Borrowed
                                    },
                                    _ => DerefMode::Consuming,
                                };
                                out.push(CallArg::Deref { name: name.clone(), mode });
                            },
                        }
                    }
                },
            }
            proof {
                lemma_take_succ(self.params@, i as int);
                assert(call_args_spec(self.params@.take(i + 1), self.host_lang)
                    == call_args_spec(self.params@.take(i as int), self.host_lang)
                    + call_arg_contrib(self.params@[i as int], self.host_lang));
                assert(out.deep_view() =~= prev + call_arg_contrib(
                    self.params@[i as int],
                    self.host_lang,
                ));
            }
        }
        proof {
            assert(self.params@.take(self.params@.len() as int) =~= self.params@);
        }
        out
    }
}

/// The rendered form of one call argument. A consuming dereference moves
/// the pointed-at value out; the borrowing forms apply the original
/// reference qualifier back.
pub open spec fn render_call_arg_spec(a: CallArgV) -> Seq<char> {
    match a {
        CallArgV::SelfAccess => "self.0"@,
        CallArgV::Plain { name } => name,
        CallArgV::Deref { name, mode } => (match mode {
            DerefMode::Consuming => "unsafe { *"@,
            DerefMode::Borrowed => "unsafe { &*"@,
            DerefMode::BorrowedMut => "unsafe { &mut *"@,
        }) + name + " }"@,
    }
}

/// The rendered, comma-joined call-argument list.
pub open spec fn render_call_args_spec(args: Seq<CallArgV>) -> Seq<char> {
    comma_join(args.map_values(|a: CallArgV| render_call_arg_spec(a)))
}

/// Render one call argument.
pub fn render_call_arg(a: &CallArg) -> (r: String)
    ensures
        r@ == render_call_arg_spec(a@),
{
    match a {
        CallArg::SelfAccess => "self.0".to_owned(),
        CallArg::Plain { name } => name.clone(),
        CallArg::Deref { name, mode } => {
            let mut r = match mode {
                DerefMode::Consuming => "unsafe { *".to_owned(),
                DerefMode::Borrowed => "unsafe { &*".to_owned(),
                DerefMode::BorrowedMut => "unsafe { &mut *".to_owned(),
            };
            r.append(name.as_str());
            r.append(" }");
            r
        },
    }
}

/// Render a call-argument list, the entries joined by commas. An empty
/// list renders as the empty string.
pub fn render_call_args(args: &Vec<CallArg>) -> (r: String)
    ensures
        r@ == render_call_args_spec(args.deep_view()),
{
    let ghost rendered = args.deep_view().map_values(|a: CallArgV| render_call_arg_spec(a));
    let mut r = String::new();
    for i in 0..args.len()
        invariant
            rendered.len() == args@.len(),
            forall|j: int| 0 <= j < args@.len()
                ==> rendered[j] == render_call_arg_spec(#[trigger] args@[j]@),
            r@ =~= comma_join(rendered.take(i as int)),
    {
        if i > 0 {
            r.append(", ");
        }
        let item = render_call_arg(&args[i]);
        r.append(item.as_str());
        proof {
            lemma_take_succ(rendered, i as int);
        }
    }
    proof {
        assert(rendered.take(rendered.len() as int) =~= rendered);
    }
    r
}

} // verus!
