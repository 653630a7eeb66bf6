//! The pools of a program: for each resource type, the store that the
//! harnesses fill and the handler draws from, with the assertions of the pool
//! protocol.

use vstd::prelude::*;
use crate::macro_core::syntax::{type_texts, TypeArg};
use crate::macro_core::text::{decimal, ended, push_ended, to_decimal, views};
use crate::pool::CAP;
use crate::macro_core::tokens::{to_uppercase, uppercase};
use crate::macro_core::verify::{all_types, check_types};

verus! {

/// The source of the pool of the resource type `ty`, whose name in upper
/// case is `upper`: the store, the two cursors, and the operations on them.
///
/// Each operation asserts what the pool protocol asks of it: a resource is
/// taken only while one is left, supplied only while the store holds fewer
/// than `CAP`, written back only at a position that was already taken, and
/// fetched only from a position that was written back.
pub open spec fn pool_source(ty: Seq<char>, upper: Seq<char>) -> Seq<char> {
    "static mut "@ + upper + "S: Option<Vec<"@ + ty + ">> = None;\nstatic mut "@ + upper
        + "_NEXT: usize = 0;\nstatic mut "@ + upper + "_NEXT_PACK: usize = 0;\nimpl Verify for "@
        + ty + " {\nfn get_next() -> Self { unsafe { assert!("@ + upper + "_NEXT < "@ + upper
        + "S.as_ref().unwrap().len()); let result = "@ + upper + "S.as_ref().unwrap()["@ + upper
        + "_NEXT]; "@ + upper
        + "_NEXT += 1; result } }\nfn expect_unpack(x: Self) { unsafe { assert!("@ + upper
        + "S.as_ref().unwrap().len() < "@ + decimal(CAP as nat) + "usize); "@ + upper
        + "S.as_mut().unwrap().push(x); } }\nfn num_used() -> usize { unsafe { "@ + upper
        + "_NEXT } }\nfn repack(x: Self) { unsafe { assert!("@ + upper + "_NEXT_PACK < "@ + upper
        + "_NEXT); "@ + upper + "S.as_mut().unwrap()["@ + upper + "_NEXT_PACK] = x; "@ + upper
        + "_NEXT_PACK += 1; } }\nfn get_packed(i: usize) -> Self { unsafe { assert!(i < "@ + upper
        + "_NEXT_PACK); let result = "@ + upper + "S.as_ref().unwrap()[i]; result } }\n}\n"@
}

/// The statements that reset the pool whose name in upper case is `upper`.
pub open spec fn reset_source(upper: Seq<char>) -> Seq<char> {
    "unsafe { "@ + upper + "S = Some(Vec::new()); "@ + upper + "_NEXT = 0; "@ + upper
        + "_NEXT_PACK = 0; }\n"@
}

/// The source of the pools of `types` and of the function that resets them
/// all.
pub open spec fn pools_source(types: Seq<Seq<char>>) -> Seq<char> {
    ended(types.map_values(|t: Seq<char>| pool_source(t, uppercase(t))), Seq::empty())
        + "pub fn init() {\n"@ + ended(
        types.map_values(|t: Seq<char>| reset_source(uppercase(t))),
        Seq::empty(),
    ) + "}\n"@
}

/// Writes the pool of the resource type `ty`, whose name in upper case is
/// `upper`.
pub fn pool_of(ty: &str, upper: &str) -> (out: String)
    ensures
        out@ == pool_source(ty@, upper@),
{
    let cap = to_decimal(CAP);
    let mut out = String::from_str("static mut ");
    out.append(upper);
    out.append("S: Option<Vec<");
    out.append(ty);
    out.append(">> = None;\nstatic mut ");
    out.append(upper);
    out.append("_NEXT: usize = 0;\nstatic mut ");
    out.append(upper);
    out.append("_NEXT_PACK: usize = 0;\nimpl Verify for ");
    out.append(ty);
    out.append(" {\nfn get_next() -> Self { unsafe { assert!(");
    out.append(upper);
    out.append("_NEXT < ");
    out.append(upper);
    out.append("S.as_ref().unwrap().len()); let result = ");
    out.append(upper);
    out.append("S.as_ref().unwrap()[");
    out.append(upper);
    out.append("_NEXT]; ");
    out.append(upper);
    out.append("_NEXT += 1; result } }\nfn expect_unpack(x: Self) { unsafe { assert!(");
    out.append(upper);
    out.append("S.as_ref().unwrap().len() < ");
    out.append(cap.as_str());
    out.append("usize); ");
    out.append(upper);
    out.append("S.as_mut().unwrap().push(x); } }\nfn num_used() -> usize { unsafe { ");
    out.append(upper);
    out.append("_NEXT } }\nfn repack(x: Self) { unsafe { assert!(");
    out.append(upper);
    out.append("_NEXT_PACK < ");
    out.append(upper);
    out.append("_NEXT); ");
    out.append(upper);
    out.append("S.as_mut().unwrap()[");
    out.append(upper);
    out.append("_NEXT_PACK] = x; ");
    out.append(upper);
    out.append("_NEXT_PACK += 1; } }\nfn get_packed(i: usize) -> Self { unsafe { assert!(i < ");
    out.append(upper);
    out.append("_NEXT_PACK); let result = ");
    out.append(upper);
    out.append("S.as_ref().unwrap()[i]; result } }\n}\n");
    out
}

/// Writes the statements that reset the pool whose name in upper case is
/// `upper`.
pub fn reset_of(upper: &str) -> (out: String)
    ensures
        out@ == reset_source(upper@),
{
    let mut out = String::from_str("unsafe { ");
    out.append(upper);
    out.append("S = Some(Vec::new()); ");
    out.append(upper);
    out.append("_NEXT = 0; ");
    out.append(upper);
    out.append("_NEXT_PACK = 0; }\n");
    out
}

/// Writes the pools of the resource types `types`, and the function `init`
/// that resets them all.  Every text of `types` is a type.
pub fn unpackable(types: &Vec<TypeArg>) -> (out: String)
    requires
        all_types(types@),
    ensures
        out@ == pools_source(type_texts(types@)),
{
    let mut pools: Vec<String> = Vec::new();
    let mut resets: Vec<String> = Vec::new();
    let mut i: usize = 0;
    let ghost want_pools = type_texts(types@).map_values(|t: Seq<char>| pool_source(t, uppercase(t)));
    let ghost want_resets = type_texts(types@).map_values(|t: Seq<char>| reset_source(uppercase(t)));
    assert(views(pools@) =~= want_pools.take(0));
    assert(views(resets@) =~= want_resets.take(0));
    while i < types.len()
        invariant
            i <= types.len(),
            want_pools == type_texts(types@).map_values(|t: Seq<char>| pool_source(t, uppercase(t))),
            want_resets == type_texts(types@).map_values(|t: Seq<char>| reset_source(uppercase(t))),
            want_pools.len() == types.len(),
            want_resets.len() == types.len(),
            pools.len() == i,
            resets.len() == i,
            views(pools@) == want_pools.take(i as int),
            views(resets@) == want_resets.take(i as int),
        decreases types.len() - i,
    {
        let upper = to_uppercase(types[i].tokens.as_str());
        let pool = pool_of(types[i].tokens.as_str(), upper.as_str());
        let reset = reset_of(upper.as_str());
        assert(want_pools[i as int] == pool_source(
            type_texts(types@)[i as int],
            uppercase(type_texts(types@)[i as int]),
        ));
        assert(want_resets[i as int] == reset_source(uppercase(type_texts(types@)[i as int])));
        let ghost pools_before = pools@;
        let ghost resets_before = resets@;
        pools.push(pool);
        resets.push(reset);
        assert(forall|j: int| 0 <= j < i ==> views(pools@)[j] == views(pools_before)[j]);
        assert(forall|j: int| 0 <= j < i ==> views(resets@)[j] == views(resets_before)[j]);
        assert(views(pools@) =~= want_pools.take(i + 1));
        assert(views(resets@) =~= want_resets.take(i + 1));
        i = i + 1;
    }
    assert(want_pools.take(types.len() as int) =~= want_pools);
    assert(want_resets.take(types.len() as int) =~= want_resets);
    proof {
        reveal_strlit("");
        assert(""@ =~= Seq::<char>::empty());
    }
    let mut out = String::new();
    push_ended(&mut out, &pools, "");
    assert(out@ =~= ended(want_pools, Seq::empty()));
    out.append("pub fn init() {\n");
    push_ended(&mut out, &resets, "");
    out.append("}\n");
    out
}

/// Writes the pools of `types` if every text of `types` is a type.
pub fn unpackable_checked(types: &Vec<TypeArg>) -> (r: Option<String>)
    ensures
        r is Some <==> all_types(types@),
        r matches Some(out) ==> out@ == pools_source(type_texts(types@)),
{
    if check_types(types) {
        Some(unpackable(types))
    } else {
        None
    }
}

} // verus!
