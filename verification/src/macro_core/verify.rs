//! Harnesses for a handler that takes its resources from pools.
//!
//! Such a handler has no context parameter: every parameter is manufactured.
//! Before the call, the harness fills one pool for each resource type.

use vstd::prelude::*;
use crate::macro_core::contract::{
    clauses_of,
    manufacture,
    manufactured,
    passed_through,
    take_clauses,
    ContractDescriptor,
    DescriptorView,
    ExtractError,
};
use crate::macro_core::harness::{
    harness_views,
    harnesses_for,
    input_views,
    pool_views,
    synthesize,
    synthesize_all,
    Harness,
    HarnessKind,
    HarnessView,
    Input,
    PoolDecl,
};
use crate::macro_core::program::{all_typed, kept, remove_verify_ignore_statements, workable};
use crate::macro_core::syntax::{takes_self, FnArg, ItemFn, Pat, TypeArg, TypeShape};
use crate::macro_core::text::{str_eq, views};
use crate::macro_core::tokens::{lowercase, to_lowercase};

verus! {

/// The loop bound that these harnesses hand to the checker.
pub const KANI_UNWIND_AMOUNT: usize = 16;

/// The most resources that a harness supplies to each pool.
pub const MAX_UNPACK: usize = 10;

/// What a harness supplies to a pool fits the pool.
pub proof fn lemma_supply_fits()
    ensures
        MAX_UNPACK <= crate::pool::CAP,
{
}

/// What a scan of the parameters has found so far.
pub struct ScanView {
    /// The pattern and type of each manufactured input.
    pub inputs: Seq<(Seq<char>, Seq<char>)>,
    /// What the call passes for each parameter.
    pub arguments: Seq<Seq<char>>,
}

/// The scan after one more parameter, or why the handler is not eligible.
pub open spec fn scan_one(acc: ScanView, arg: FnArg) -> Result<ScanView, ExtractError> {
    match arg {
        FnArg::Receiver(_) => Ok(acc),
        FnArg::Typed(a) => match a.pat {
            Pat::Other(_) => Err(ExtractError::ExpectedIdentifier),
            Pat::Ident { ident, tokens } => Ok(
                ScanView {
                    inputs: acc.inputs.push(manufactured(ident@, tokens@, a.ty).0),
                    arguments: acc.arguments.push(manufactured(ident@, tokens@, a.ty).1),
                },
            ),
        },
    }
}

/// The scan of all of `inputs` in order; the first parameter that is not
/// acceptable decides the error.
pub open spec fn scan(inputs: Seq<FnArg>) -> Result<ScanView, ExtractError>
    decreases inputs.len(),
{
    if inputs.len() == 0 {
        Ok(ScanView { inputs: Seq::empty(), arguments: Seq::empty() })
    } else {
        match scan(inputs.drop_last()) {
            Ok(acc) => scan_one(acc, inputs.last()),
            Err(e) => Err(e),
        }
    }
}

/// The contract descriptor of `item`, or why `item` is not eligible.
pub open spec fn descriptor_of(item: ItemFn) -> Result<DescriptorView, ExtractError> {
    match scan(item.sig.inputs@) {
        Err(e) => Err(e),
        Ok(s) => Ok(
            DescriptorView {
                function: item.sig.ident@,
                generics: Seq::empty(),
                inputs: s.inputs,
                arguments: s.arguments,
                context: None,
                clauses: clauses_of(item.attrs@),
            },
        ),
    }
}

/// An error in a prefix of the parameters is the error of the whole list.
pub proof fn lemma_scan_prefix_error(inputs: Seq<FnArg>, n: int)
    requires
        0 <= n <= inputs.len(),
        scan(inputs.take(n)) is Err,
    ensures
        scan(inputs) == scan(inputs.take(n)),
    decreases inputs.len() - n,
{
    if n < inputs.len() {
        assert(inputs.take(n + 1).drop_last() =~= inputs.take(n));
        lemma_scan_prefix_error(inputs, n + 1);
    } else {
        assert(inputs.take(n) =~= inputs);
    }
}

/// Reads the contract of `item` off its signature and attributes.  When the
/// handler is eligible, the attributes that make up the contract are taken
/// off it; when it is not, it is left as it is.
pub fn extract(item: &mut ItemFn) -> (r: Result<ContractDescriptor, ExtractError>)
    requires
        all_typed(old(item).sig.inputs@),
    ensures
        final(item).stmts == old(item).stmts,
        final(item).vis == old(item).vis,
        final(item).sig == old(item).sig,
        match r {
            Ok(d) => descriptor_of(*old(item)) == Ok::<DescriptorView, ExtractError>(d@)
                && final(item).attrs@ == passed_through(old(item).attrs@),
            Err(e) => descriptor_of(*old(item)) == Err::<DescriptorView, ExtractError>(e)
                && final(item).attrs == old(item).attrs,
        },
{
    let mut inputs: Vec<Input> = Vec::new();
    let mut arguments: Vec<String> = Vec::new();
    let mut i: usize = 0;
    let ghost args = item.sig.inputs@;
    assert(args.take(0) =~= Seq::<FnArg>::empty());
    assert(input_views(inputs@) =~= Seq::empty());
    assert(views(arguments@) =~= Seq::empty());
    while i < item.sig.inputs.len()
        invariant
            i <= item.sig.inputs.len(),
            *item == *old(item),
            args == item.sig.inputs@,
            all_typed(args),
            inputs.len() == i,
            arguments.len() == i,
            scan(args.take(i as int)) == Ok::<ScanView, ExtractError>(
                ScanView { inputs: input_views(inputs@), arguments: views(arguments@) },
            ),
        decreases item.sig.inputs.len() - i,
    {
        proof {
            assert(args.take(i + 1).drop_last() =~= args.take(i as int));
            assert(args.take(i + 1).last() == args[i as int]);
            if scan(args.take(i + 1)) is Err {
                lemma_scan_prefix_error(args, i + 1);
            }
        }
        let ghost before_inputs = input_views(inputs@);
        let ghost before_arguments = views(arguments@);
        match &item.sig.inputs[i] {
            FnArg::Receiver(_) => {
                assert(args[i as int] is Typed);
                return Err(ExtractError::ExpectedIdentifier);
            },
            FnArg::Typed(a) => match &a.pat {
                Pat::Other(_) => {
                    return Err(ExtractError::ExpectedIdentifier);
                },
                Pat::Ident { ident, tokens } => {
                    let ghost made = manufactured(ident@, tokens@, a.ty);
                    let (input, argument) = manufacture(ident.as_str(), tokens.as_str(), &a.ty);
                    inputs.push(input);
                    arguments.push(argument);
                    assert(input_views(inputs@) =~= before_inputs.push(made.0));
                    assert(views(arguments@) =~= before_arguments.push(made.1));
                },
            },
        }
        i = i + 1;
    }
    assert(args.take(item.sig.inputs.len() as int) =~= args);
    let function = item.sig.ident.clone();
    let clauses = take_clauses(&mut item.attrs);
    Ok(
        ContractDescriptor {
            function,
            generics: String::new(),
            inputs,
            arguments,
            context: None,
            clauses,
        },
    )
}

/// The pool of each resource type of `types`: the type and its name in
/// lower case.
pub open spec fn pools_of(types: Seq<TypeArg>) -> Seq<(Seq<char>, Seq<char>)> {
    types.map_values(|t: TypeArg| (t.tokens@, lowercase(t.tokens@)))
}

/// Declares the pool of each resource type of `types`.
pub fn pool_decls(types: &Vec<TypeArg>) -> (pools: Vec<PoolDecl>)
    ensures
        pool_views(pools@) == pools_of(types@),
{
    let mut pools: Vec<PoolDecl> = Vec::new();
    let mut i: usize = 0;
    assert(pool_views(pools@) =~= pools_of(types@).take(0));
    while i < types.len()
        invariant
            i <= types.len(),
            pools.len() == i,
            pool_views(pools@) == pools_of(types@).take(i as int),
        decreases types.len() - i,
    {
        let ghost before = pool_views(pools@);
        let lower = to_lowercase(types[i].tokens.as_str());
        pools.push(PoolDecl { ty: types[i].tokens.clone(), lower });
        assert(forall|j: int| 0 <= j < i ==> pool_views(pools@)[j] == before[j]);
        assert(pool_views(pools@) =~= pools_of(types@).take(i + 1));
        i = i + 1;
    }
    assert(pools_of(types@).take(types.len() as int) =~= pools_of(types@));
    pools
}

/// How the harnesses of `item` call it: by its name alone when it takes
/// `self`, through `Self` when it does not.
pub open spec fn callee_of(item: ItemFn) -> Option<Seq<char>> {
    if takes_self(item.sig.inputs@) {
        None
    } else {
        Some("Self"@)
    }
}

/// The harness of kind `kind` for the handler `item`, filling a pool for
/// each of `types`.
pub open spec fn harness_for_handler(
    kind: HarnessKind,
    callee: Option<Seq<char>>,
    types: Seq<TypeArg>,
    d: DescriptorView,
) -> HarnessView {
    crate::macro_core::harness::harness_for(
        kind,
        callee,
        d,
        pools_of(types),
        KANI_UNWIND_AMOUNT as nat,
    )
}

/// The harness that asserts success under the declared condition, when the
/// contract declares one.
pub fn create_succeeds_if(callee: Option<&str>, types: &Vec<TypeArg>, d: &ContractDescriptor) -> (r:
    Option<Harness>)
    ensures
        r is Some <==> d@.clauses.succeeds_if is Some,
        r matches Some(h) ==> h@ == harness_for_handler(
            HarnessKind::SucceedsIf,
            match callee {
                Some(c) => Some(c@),
                None => None,
            },
            types@,
            d@,
        ),
{
    let pools = pool_decls(types);
    synthesize(HarnessKind::SucceedsIf, callee, d, &pools, KANI_UNWIND_AMOUNT)
}

/// The general harness: it asserts that the handler fails or leaves the
/// postcondition in place.
pub fn create_verify(callee: Option<&str>, types: &Vec<TypeArg>, d: &ContractDescriptor) -> (h:
    Harness)
    ensures
        h@ == harness_for_handler(
            HarnessKind::Verify,
            match callee {
                Some(c) => Some(c@),
                None => None,
            },
            types@,
            d@,
        ),
{
    let pools = pool_decls(types);
    synthesize(HarnessKind::Verify, callee, d, &pools, KANI_UNWIND_AMOUNT).unwrap()
}

/// The harnesses for the handler `item`: none when it is not eligible.
pub open spec fn handler_harnesses(types: Seq<TypeArg>, item: ItemFn) -> Seq<HarnessView> {
    match descriptor_of(item) {
        Ok(d) => harnesses_for(callee_of(item), d, pools_of(types), KANI_UNWIND_AMOUNT as nat),
        Err(_) => Seq::empty(),
    }
}

/// Whether `after` is what `verification_harness_of` makes of `before`: the
/// statements marked to be left out are gone, and so are the attributes of
/// the contract if the handler is eligible.
pub open spec fn handler_processed(before: ItemFn, after: ItemFn) -> bool {
    &&& after.vis == before.vis
    &&& after.sig == before.sig
    &&& after.stmts@ == kept(before.stmts@)
    &&& after.attrs@ == if descriptor_of(before) is Ok {
        passed_through(before.attrs@)
    } else {
        before.attrs@
    }
}

/// Makes the harnesses for the handler `item`, filling a pool for each of
/// `types`, and takes from `item` what is not to be checked: the statements
/// marked `verify_ignore` always, the attributes of the contract if the
/// handler is eligible.  The general harness comes first, then the one that
/// asserts success, then the one that asserts failure.
pub fn verification_harness_of(item: &mut ItemFn, types: &Vec<TypeArg>) -> (r: Result<
    Vec<Harness>,
    ExtractError,
>)
    requires
        workable(*old(item)),
    ensures
        handler_processed(*old(item), *final(item)),
        match r {
            Ok(hs) => descriptor_of(*old(item)) is Ok && harness_views(hs@) == handler_harnesses(
                types@,
                *old(item),
            ),
            Err(e) => descriptor_of(*old(item)) == Err::<DescriptorView, ExtractError>(e),
        },
{
    remove_verify_ignore_statements(item);
    let ghost stripped = *item;
    assert(descriptor_of(stripped) == descriptor_of(*old(item)));
    let by_name = item.sig.receiver();
    match extract(item) {
        Ok(d) => {
            let pools = pool_decls(types);
            if by_name {
                Ok(synthesize_all(None, &d, &pools, KANI_UNWIND_AMOUNT))
            } else {
                Ok(synthesize_all(Some("Self"), &d, &pools, KANI_UNWIND_AMOUNT))
            }
        },
        Err(e) => Err(e),
    }
}

/// Whether every text of `types` is a type, by the parser's verdict.
pub open spec fn all_types(types: Seq<TypeArg>) -> bool {
    forall|i: int| 0 <= i < types.len() ==> (#[trigger] types[i]).parses
}

/// Whether every text of `types` is a type.
pub fn check_types(types: &Vec<TypeArg>) -> (b: bool)
    ensures
        b == all_types(types@),
{
    let mut i: usize = 0;
    while i < types.len()
        invariant
            i <= types.len(),
            forall|j: int| 0 <= j < i ==> (#[trigger] types@[j]).parses,
        decreases types.len() - i,
    {
        if !types[i].parses {
            return false;
        }
        i = i + 1;
    }
    true
}

/// Makes the harnesses for the handler `item`, which takes its resources from
/// the pools of `types`.  A handler that is not eligible gets none.
pub fn verify(types: &Vec<TypeArg>, item: &mut ItemFn) -> (harnesses: Vec<Harness>)
    requires
        all_types(types@),
        workable(*old(item)),
    ensures
        handler_processed(*old(item), *final(item)),
        harness_views(harnesses@) == handler_harnesses(types@, *old(item)),
{
    match verification_harness_of(item, types) {
        Ok(harnesses) => harnesses,
        Err(_) => {
            let none: Vec<Harness> = Vec::new();
            assert(harness_views(none@) =~= Seq::empty());
            none
        },
    }
}

/// Makes the harnesses for the handler `item` if every text of `types` is a
/// type, and leaves `item` as it is if one is not.
pub fn verify_checked(types: &Vec<TypeArg>, item: &mut ItemFn) -> (r: Option<Vec<Harness>>)
    requires
        workable(*old(item)),
    ensures
        r is Some <==> all_types(types@),
        match r {
            Some(harnesses) => handler_processed(*old(item), *final(item)) && harness_views(
                harnesses@,
            ) == handler_harnesses(types@, *old(item)),
            None => *final(item) == *old(item),
        },
{
    if check_types(types) {
        Some(verify(types, item))
    } else {
        None
    }
}

} // verus!
