//! The space that a resource set needs at its creation.

use vstd::prelude::*;
use crate::macro_core::account::AccountsStruct;

verus! {

/// The source that declares the initial space of the resource set `ident`:
/// none.
pub open spec fn space_source(ident: Seq<char>, generics: Seq<char>) -> Seq<char> {
    "impl "@ + generics + " Space for "@ + ident + " "@ + generics
        + " { const INIT_SPACE: usize = 0; }\n"@
}

/// Writes the declaration of the initial space of the resource set `val`.
pub fn derive_init_space(val: &AccountsStruct) -> (out: String)
    ensures
        out@ == space_source(val.ident@, val.generics@),
{
    let mut out = String::from_str("impl ");
    out.append(val.generics.as_str());
    out.append(" Space for ");
    out.append(val.ident.as_str());
    out.append(" ");
    out.append(val.generics.as_str());
    out.append(" { const INIT_SPACE: usize = 0; }\n");
    out
}

} // verus!
