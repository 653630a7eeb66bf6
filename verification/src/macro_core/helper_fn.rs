//! Helper functions: what is marked to be left out of the check is left out.

use vstd::prelude::*;
use crate::macro_core::program::{kept, remove_verify_ignore_statements};
use crate::macro_core::syntax::ItemFn;

verus! {

/// Takes the statements marked `verify_ignore` out of `item` and writes the
/// function out.  The body of `item` declares no items.
pub fn helper_fn(item: &mut ItemFn) -> (out: String)
    requires
        forall|i: int| 0 <= i < old(item).stmts@.len() ==> !(old(item).stmts@[i] is Item),
    ensures
        final(item).stmts@ == kept(old(item).stmts@),
        final(item).attrs == old(item).attrs,
        final(item).vis == old(item).vis,
        final(item).sig == old(item).sig,
        out@ == final(item).source(),
{
    remove_verify_ignore_statements(item);
    item.to_source()
}

} // verus!
