//! Access control: checks that run at the start of a handler and end it with
//! their error if they fail.

use vstd::prelude::*;
use crate::macro_core::program::{kept, remove_verify_ignore_statements};
use crate::macro_core::syntax::{attr_lines, attr_texts, stmt_lines, stmt_texts, ItemFn};
use crate::macro_core::text::{
    ended,
    push_ended,
    split,
    split_spec,
    strip_whitespace,
    views,
    without_whitespace,
};

verus! {

/// The statement that runs the check `call`, a call without its closing
/// parenthesis.
pub open spec fn check_stmt(call: Seq<char>) -> Seq<char> {
    call + ")?;"@
}

/// The statements that run the checks of `args`: `args` without its white
/// space, cut at every closing parenthesis; each piece that is not empty is
/// one check.
pub open spec fn check_stmts(args: Seq<char>) -> Seq<Seq<char>> {
    split_spec(without_whitespace(args), ')').filter(|p: Seq<char>| p.len() > 0).map_values(
        |p: Seq<char>| check_stmt(p),
    )
}

/// The source of the function `item` with the checks `checks` at the start
/// of its body.
pub open spec fn guarded_source(item: ItemFn, checks: Seq<Seq<char>>) -> Seq<char> {
    ended(attr_texts(item.attrs@), "\n"@) + item.vis@ + " "@ + item.sig.tokens@ + " {\n"@ + ended(
        checks,
        "\n"@,
    ) + ended(stmt_texts(item.stmts@), "\n"@) + "}\n"@
}

/// The statements that run the checks of `args`.
pub fn access_checks(args: &str) -> (checks: Vec<String>)
    ensures
        views(checks@) == check_stmts(args@),
{
    let stripped = strip_whitespace(args);
    let pieces = split(stripped.as_str(), ')');
    let ghost all = views(pieces@);
    let mut checks: Vec<String> = Vec::new();
    let mut i: usize = 0;
    proof {
        reveal(Seq::filter);
        assert(all.take(0) =~= Seq::<Seq<char>>::empty());
    }
    assert(views(checks@) =~= all.take(0).filter(|p: Seq<char>| p.len() > 0).map_values(
        |p: Seq<char>| check_stmt(p),
    ));
    while i < pieces.len()
        invariant
            i <= pieces.len(),
            all == views(pieces@),
            views(checks@) == all.take(i as int).filter(|p: Seq<char>| p.len() > 0).map_values(
                |p: Seq<char>| check_stmt(p),
            ),
        decreases pieces.len() - i,
    {
        proof {
            reveal(Seq::filter);
            assert(all.take(i + 1).drop_last() =~= all.take(i as int));
            assert(all.take(i + 1).last() == pieces@[i as int]@);
        }
        let ghost before = views(checks@);
        if pieces[i].as_str().unicode_len() > 0 {
            let mut check = pieces[i].clone();
            check.append(")?;");
            checks.push(check);
            assert(views(checks@) =~= before.push(check_stmt(pieces@[i as int]@)));
        }
        assert(views(checks@) =~= all.take(i + 1).filter(|p: Seq<char>| p.len() > 0).map_values(
            |p: Seq<char>| check_stmt(p),
        ));
        i = i + 1;
    }
    assert(all.take(pieces.len() as int) =~= all);
    checks
}

/// Takes the statements marked `verify_ignore` out of `item` and writes the
/// function out with the checks of `args` at the start of its body.  The
/// body of `item` declares no items.
pub fn access_control(args: &str, item: &mut ItemFn) -> (out: String)
    requires
        forall|i: int| 0 <= i < old(item).stmts@.len() ==> !(old(item).stmts@[i] is Item),
    ensures
        final(item).stmts@ == kept(old(item).stmts@),
        final(item).attrs == old(item).attrs,
        final(item).vis == old(item).vis,
        final(item).sig == old(item).sig,
        out@ == guarded_source(*final(item), check_stmts(args@)),
{
    let checks = access_checks(args);
    remove_verify_ignore_statements(item);
    let attrs = attr_lines(&item.attrs);
    let stmts = stmt_lines(&item.stmts);
    let mut out = String::new();
    push_ended(&mut out, &attrs, "\n");
    assert(out@ =~= ended(attr_texts(item.attrs@), "\n"@));
    out.append(item.vis.as_str());
    out.append(" ");
    out.append(item.sig.tokens.as_str());
    out.append(" {\n");
    push_ended(&mut out, &checks, "\n");
    push_ended(&mut out, &stmts, "\n");
    out.append("}\n");
    out
}

} // verus!
