//! The invariant of a resource type: a check that the harnesses assume of
//! every resource they manufacture and assert of every resource left behind.

use vstd::prelude::*;
use crate::macro_core::contract::{expr_or_true, expr_or_true_spec};

verus! {

/// A record type, as far as the generators read it.
#[derive(Debug)]
pub struct ItemStruct {
    /// The type's name.
    pub ident: String,
    /// The type's generic parameters, with their angle brackets.
    pub generics: String,
    /// The whole declaration as written.
    pub tokens: String,
}

/// The source of the invariant check of the type `ident` with the body `body`.
pub open spec fn check_source(ident: Seq<char>, body: Seq<char>) -> Seq<char> {
    "impl "@ + ident + " { pub fn _check_invariant(&self) -> bool { "@ + body + " } }\n"@
}

/// The declaration `item`, followed by its invariant check with the body `body`.
pub open spec fn with_check(item: ItemStruct, body: Seq<char>) -> Seq<char> {
    item.tokens@ + "\n"@ + check_source(item.ident@, body)
}

/// Writes the declaration `item`, followed by its invariant check with the
/// body `body`.
pub fn attach_check(item: &ItemStruct, body: &str) -> (out: String)
    ensures
        out@ == with_check(*item, body@),
{
    let mut check = String::from_str("impl ");
    check.append(item.ident.as_str());
    check.append(" { pub fn _check_invariant(&self) -> bool { ");
    check.append(body);
    check.append(" } }\n");
    let mut out = item.tokens.clone();
    out.append("\n");
    out.append(check.as_str());
    out
}

/// Writes the declaration `item`, followed by its invariant check.  The check
/// evaluates `attr` when a parser reads `attr` as an expression, which
/// `parses` says, and is `true` when it does not: an invariant that is not
/// written holds of every value.
pub fn with_invariant(attr: &str, parses: bool, item: &ItemStruct) -> (out: String)
    ensures
        out@ == with_check(*item, expr_or_true_spec(attr@, parses)),
{
    let body = expr_or_true(attr, parses);
    attach_check(item, body.as_str())
}

} // verus!
