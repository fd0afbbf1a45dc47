//! Lowering of bridged function signatures to the artifacts needed to call
//! across a C-compatible foreign-function boundary: an ABI-safe parameter
//! list, a call-site argument list, a C header declaration, and the two
//! canonical names (link symbol and prefixed identifier) that tie the three
//! together.

pub mod abi;
pub mod call;
pub mod header;
pub mod laws;
pub mod mangle;
pub mod sig;
pub mod strutil;
pub mod ty;

pub use mangle::link_symbol;
pub use mangle::prefixed_identifier;

use vstd::prelude::*;

verus! {

/// The fixed prefix that every generated boundary name starts with. It is
/// chosen so that generated identifiers cannot collide with user identifiers.
pub fn swift_bridge_prefix() -> (r: &'static str)
    ensures
        r@ == swift_bridge_prefix_spec(),
{
    "__swift_bridge__"
}

/// The view of the boundary-name prefix.
pub open spec fn swift_bridge_prefix_spec() -> Seq<char> {
    "__swift_bridge__"@
}

} // verus!
