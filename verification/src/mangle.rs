//! Name mangling for the foreign-function boundary.
//!
//! From the boundary prefix, an optional owning-type name and a function
//! name, two canonical identifiers are derived: the link symbol
//! (`prefix$Type$func`, or `prefix$func` for free functions) used to resolve
//! the function across the boundary at link time, and the prefixed
//! identifier (`prefixType_func`, or `prefixfunc`) used to name the
//! generated transfer function locally. Both are pure functions of their
//! inputs, so they can never drift from the signature they describe.

use vstd::prelude::*;

verus! {

/// The link symbol for a bridged function: `prefix$owning$fn_name` when an
/// owning type exists, `prefix$fn_name` otherwise.
pub open spec fn link_symbol_spec(
    prefix: Seq<char>,
    owning_type: Option<Seq<char>>,
    fn_name: Seq<char>,
) -> Seq<char> {
    match owning_type {
        Some(t) => prefix + "$"@ + t + "$"@ + fn_name,
        None => prefix + "$"@ + fn_name,
    }
}

/// The prefixed local identifier for a bridged function:
/// `prefixowning_fn_name` when an owning type exists, `prefixfn_name`
/// otherwise.
pub open spec fn prefixed_identifier_spec(
    prefix: Seq<char>,
    owning_type: Option<Seq<char>>,
    fn_name: Seq<char>,
) -> Seq<char> {
    match owning_type {
        Some(t) => prefix + t + "_"@ + fn_name,
        None => prefix + fn_name,
    }
}

/// Derive the link symbol for a function, optionally owned by a type.
pub fn link_symbol(prefix: &str, owning_type: Option<&str>, fn_name: &str) -> (r: String)
    ensures
        r@ == link_symbol_spec(
            prefix@,
            match owning_type {
                Some(t) => Some(t@),
                None => None,
            },
            fn_name@,
        ),
{
    let mut r = prefix.to_owned();
    match owning_type {
        Some(t) => {
            r.append("$");
            r.append(t);
        },
        None => {},
    }
    r.append("$");
    r.append(fn_name);
    r
}

/// Derive the prefixed local identifier for a function, optionally owned by
/// a type.
pub fn prefixed_identifier(prefix: &str, owning_type: Option<&str>, fn_name: &str) -> (r: String)
    ensures
        r@ == prefixed_identifier_spec(
            prefix@,
            match owning_type {
                Some(t) => Some(t@),
                None => None,
            },
            fn_name@,
        ),
{
    let mut r = prefix.to_owned();
    match owning_type {
        Some(t) => {
            r.append(t);
            r.append("_");
        },
        None => {},
    }
    r.append(fn_name);
    r
}

/// Whether a character may occur in an identifier of either runtime:
/// ASCII letters, decimal digits, or the underscore.
pub open spec fn is_ident_char(c: char) -> bool {
    ('a' <= c && c <= 'z') || ('A' <= c && c <= 'Z') || ('0' <= c && c <= '9') || c == '_'
}

/// Whether a character sequence is a valid identifier: nonempty, made of
/// identifier characters only, and not starting with a digit.
pub open spec fn is_valid_ident(s: Seq<char>) -> bool {
    &&& s.len() > 0
    &&& forall|i: int| 0 <= i < s.len() ==> is_ident_char(#[trigger] s[i])
    &&& !('0' <= s[0] && s[0] <= '9')
}

/// The dollar separator never occurs in a valid identifier.
pub proof fn lemma_ident_has_no_dollar(s: Seq<char>)
    requires
        is_valid_ident(s),
    ensures
        forall|i: int| 0 <= i < s.len() ==> #[trigger] s[i] != '$',
{
}

/// Link-symbol derivation is injective: two distinct (owning type, function
/// name) pairs of valid identifiers never produce the same link symbol.
pub proof fn lemma_link_symbol_injective(
    prefix: Seq<char>,
    owning1: Option<Seq<char>>,
    fn_name1: Seq<char>,
    owning2: Option<Seq<char>>,
    fn_name2: Seq<char>,
)
    requires
        owning1 matches Some(t) ==> is_valid_ident(t),
        owning2 matches Some(t) ==> is_valid_ident(t),
        is_valid_ident(fn_name1),
        is_valid_ident(fn_name2),
        link_symbol_spec(prefix, owning1, fn_name1) == link_symbol_spec(prefix, owning2, fn_name2),
    ensures
        owning1 == owning2,
        fn_name1 == fn_name2,
{
    reveal_strlit("$");
    let d = "$"@;
    assert(d.len() == 1 && d[0] == '$');
    let s1 = link_symbol_spec(prefix, owning1, fn_name1);
    let s2 = link_symbol_spec(prefix, owning2, fn_name2);
    match (owning1, owning2) {
        (None, None) => {
            assert(s1.len() == s2.len());
            assert(fn_name1.len() == fn_name2.len());
            assert forall|i: int| 0 <= i < fn_name1.len() implies fn_name1[i] == fn_name2[i] by {
                assert(s1[prefix.len() + 1 + i] == fn_name1[i]);
                assert(s2[prefix.len() + 1 + i] == fn_name2[i]);
            }
            assert(fn_name1 =~= fn_name2);
        },
        (Some(t1), None) => {
            // The second `$` of s1 would have to land inside fn_name2.
            assert(s1.len() == s2.len());
            assert(fn_name2.len() == t1.len() + 1 + fn_name1.len());
            let k = prefix.len() + 1 + t1.len();
            assert(s1[k as int] == '$');
            assert(s2[k as int] == fn_name2[t1.len() as int]);
            assert(fn_name2[t1.len() as int] != '$');
            assert(false);
        },
        (None, Some(t2)) => {
            assert(s1.len() == s2.len());
            assert(fn_name1.len() == t2.len() + 1 + fn_name2.len());
            let k = prefix.len() + 1 + t2.len();
            assert(s2[k as int] == '$');
            assert(s1[k as int] == fn_name1[t2.len() as int]);
            assert(fn_name1[t2.len() as int] != '$');
            assert(false);
        },
        (Some(t1), Some(t2)) => {
            if t1.len() < t2.len() {
                // The second `$` of s1 would have to land inside t2.
                let k = prefix.len() + 1 + t1.len();
                assert(s1[k as int] == '$');
                assert(s2[k as int] == t2[t1.len() as int]);
                assert(false);
            }
            if t2.len() < t1.len() {
                let k = prefix.len() + 1 + t2.len();
                assert(s2[k as int] == '$');
                assert(s1[k as int] == t1[t2.len() as int]);
                assert(false);
            }
            assert(t1.len() == t2.len());
            assert forall|i: int| 0 <= i < t1.len() implies t1[i] == t2[i] by {
                assert(s1[prefix.len() + 1 + i] == t1[i]);
                assert(s2[prefix.len() + 1 + i] == t2[i]);
            }
            assert(t1 =~= t2);
            assert(s1.len() == s2.len());
            assert(fn_name1.len() == fn_name2.len());
            assert forall|i: int| 0 <= i < fn_name1.len() implies fn_name1[i] == fn_name2[i] by {
                assert(s1[prefix.len() + 2 + t1.len() + i] == fn_name1[i]);
                assert(s2[prefix.len() + 2 + t2.len() + i] == fn_name2[i]);
            }
            assert(fn_name1 =~= fn_name2);
        },
    }
}

} // verus!
