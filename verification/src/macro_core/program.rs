//! Harnesses for the handlers of a module that take their resources through
//! a context parameter.
//!
//! A handler is eligible when every parameter binds a single name and exactly
//! one of them is a context parameter: its type is a path that names
//! `Context` with type arguments.  The other parameters are plain: the
//! harness manufactures them.
//! A plain parameter that is taken by reference is manufactured by value and
//! passed by reference.

use vstd::prelude::*;
use crate::macro_core::contract::{
    clauses_of,
    manufacture,
    manufactured,
    passed_through,
    take_clauses,
    ContractDescriptor,
    DescriptorView,
    ExtractError,
};
use crate::macro_core::harness::{
    context_view,
    harness_views,
    harnesses_for,
    input_views,
    synthesize,
    synthesize_all,
    ContextParam,
    Harness,
    HarnessKind,
    HarnessView,
    Input,
    PoolDecl,
};
use crate::macro_core::syntax::{
    any_attr_named,
    has_attr,
    Attribute,
    Expr,
    ExprKind,
    FnArg,
    Item,
    ItemFn,
    ItemMod,
    Pat,
    PatType,
    PathSegment,
    Stmt,
    Type,
    TypeShape,
};
use crate::macro_core::text::{str_eq, views};

verus! {

/// The loop bound that these harnesses hand to the checker.
pub const KANI_UNWIND_AMOUNT: usize = 100;

/// The type arguments of the first segment of `segments` that is named
/// `Context` and has type arguments.
pub open spec fn context_args(segments: Seq<PathSegment>) -> Option<Seq<char>>
    decreases segments.len(),
{
    if segments.len() == 0 {
        None
    } else if segments[0].ident@ == "Context"@ && segments[0].args is Some {
        Some(segments[0].args->0@)
    } else {
        context_args(segments.drop_first())
    }
}

/// The type arguments of the context that `ty` names, or why it names none.
pub open spec fn ctx_type(ty: Type) -> Result<Seq<char>, ExtractError> {
    match ty.shape {
        TypeShape::Path(segments) => match context_args(segments@) {
            Some(args) => Ok(args),
            None => Err(ExtractError::InvalidContextType),
        },
        _ => Err(ExtractError::InvalidCtxType),
    }
}

/// The type arguments of the context that the parameter's type names.
pub fn get_ctx_type(ctx_param: &PatType) -> (r: Result<String, ExtractError>)
    ensures
        match r {
            Ok(args) => ctx_type(ctx_param.ty) == Ok::<Seq<char>, ExtractError>(args@),
            Err(e) => ctx_type(ctx_param.ty) == Err::<Seq<char>, ExtractError>(e),
        },
{
    match &ctx_param.ty.shape {
        TypeShape::Path(segments) => {
            let mut i: usize = 0;
            assert(segments@.skip(0) =~= segments@);
            while i < segments.len()
                invariant
                    i <= segments.len(),
                    ctx_param.ty.shape == TypeShape::Path(*segments),
                    context_args(segments@) == context_args(segments@.skip(i as int)),
                decreases segments.len() - i,
            {
                assert(segments@.skip(i as int).drop_first() =~= segments@.skip(i + 1));
                assert(segments@.skip(i as int)[0] == segments@[i as int]);
                if str_eq(segments[i].ident.as_str(), "Context") {
                    if let Some(args) = &segments[i].args {
                        assert(segments@[i as int].args == Some(*args));
                        assert(context_args(segments@.skip(i as int)) == Some(args@));
                        return Ok(args.clone());
                    }
                }
                i = i + 1;
            }
            assert(segments@.skip(i as int).len() == 0);
            Err(ExtractError::InvalidContextType)
        },
        _ => Err(ExtractError::InvalidCtxType),
    }
}

/// Whether `expr` carries the attribute `verify_ignore`.  Tokens that were
/// not taken apart carry no attributes.
pub open spec fn expr_ignored(expr: Expr) -> bool {
    !(expr.kind is Verbatim) && has_attr(expr.attrs@, "verify_ignore"@)
}

/// Whether `stmt` is marked to be left out of what is checked.
pub open spec fn ignored(stmt: Stmt) -> bool {
    match stmt {
        Stmt::Local { attrs, tokens } => has_attr(attrs@, "verify_ignore"@),
        Stmt::Item(_) => false,
        Stmt::Expr(e) => expr_ignored(e),
        Stmt::Semi(e) => expr_ignored(e),
    }
}

/// The statements of `stmts` that are not marked to be left out, in order.
pub open spec fn kept(stmts: Seq<Stmt>) -> Seq<Stmt> {
    stmts.filter(|s: Stmt| !ignored(s))
}

/// Whether `expr` carries the attribute `verify_ignore`.
pub fn check_expr_is_ignored(expr: &Expr) -> (b: bool)
    ensures
        b == expr_ignored(*expr),
{
    match expr.kind {
        ExprKind::Verbatim => false,
        _ => any_attr_named(&expr.attrs, "verify_ignore"),
    }
}

/// Takes the statements marked `verify_ignore` out of the body of `item` and
/// leaves the rest of it as it is.  The body holds no item declarations.
pub fn remove_verify_ignore_statements(item: &mut ItemFn)
    requires
        forall|i: int| 0 <= i < old(item).stmts@.len() ==> !(old(item).stmts@[i] is Item),
    ensures
        final(item).stmts@ == kept(old(item).stmts@),
        final(item).attrs == old(item).attrs,
        final(item).vis == old(item).vis,
        final(item).sig == old(item).sig,
{
    let mut taken: Vec<Stmt> = Vec::new();
    core::mem::swap(&mut item.stmts, &mut taken);
    let ghost all = taken@;
    proof {
        reveal(Seq::filter);
        assert(all.take(0) =~= Seq::<Stmt>::empty());
        assert(item.stmts@ =~= kept(all.take(0)));
    }
    for stmt in it: taken
        invariant
            it.seq() == all,
            item.stmts@ == kept(all.take(it.index() as int)),
            item.attrs == old(item).attrs,
            item.vis == old(item).vis,
            item.sig == old(item).sig,
            forall|i: int| 0 <= i < all.len() ==> !(all[i] is Item),
    {
        proof {
            reveal(Seq::filter);
            let i = it.index() as int;
            assert(all.take(i + 1).drop_last() =~= all.take(i));
            assert(all.take(i + 1).last() == stmt);
            assert(all[i] == stmt);
        }
        let contains_ignore = match &stmt {
            Stmt::Local { attrs, tokens } => any_attr_named(attrs, "verify_ignore"),
            Stmt::Item(_) => false,
            Stmt::Expr(expr) => check_expr_is_ignored(expr),
            Stmt::Semi(expr) => check_expr_is_ignored(expr),
        };
        if !contains_ignore {
            item.stmts.push(stmt);
        }
    }
    assert(all.take(all.len() as int) =~= all);
}

/// What a scan of the parameters has found so far.
pub struct ScanView {
    /// The pattern and type of each plain parameter.
    pub inputs: Seq<(Seq<char>, Seq<char>)>,
    /// The name of each parameter.
    pub arguments: Seq<Seq<char>>,
    /// The name and the type arguments of the context parameter, once it
    /// was seen.
    pub context: Option<(Seq<char>, Seq<char>)>,
}

/// The scan after one more parameter, or why the handler is not eligible.
pub open spec fn scan_one(acc: ScanView, arg: FnArg) -> Result<ScanView, ExtractError> {
    match arg {
        FnArg::Receiver(_) => Ok(acc),
        FnArg::Typed(a) => match a.pat {
            Pat::Other(_) => Err(ExtractError::ExpectedIdentifier),
            Pat::Ident { ident, tokens } => match ctx_type(a.ty) {
                Ok(args) => if acc.context is Some {
                    Err(ExtractError::DuplicateContext)
                } else {
                    Ok(
                        ScanView {
                            inputs: acc.inputs,
                            arguments: acc.arguments.push(ident@),
                            context: Some((ident@, args)),
                        },
                    )
                },
                Err(_) => Ok(
                    ScanView {
                        inputs: acc.inputs.push(manufactured(ident@, tokens@, a.ty).0),
                        arguments: acc.arguments.push(manufactured(ident@, tokens@, a.ty).1),
                        context: acc.context,
                    },
                ),
            },
        },
    }
}

/// The scan of all of `inputs` in order; the first parameter that is not
/// acceptable decides the error.
pub open spec fn scan(inputs: Seq<FnArg>) -> Result<ScanView, ExtractError>
    decreases inputs.len(),
{
    if inputs.len() == 0 {
        Ok(ScanView { inputs: Seq::empty(), arguments: Seq::empty(), context: None })
    } else {
        match scan(inputs.drop_last()) {
            Ok(acc) => scan_one(acc, inputs.last()),
            Err(e) => Err(e),
        }
    }
}

/// The contract descriptor of `item`, or why `item` is not eligible.
pub open spec fn descriptor_of(item: ItemFn) -> Result<DescriptorView, ExtractError> {
    match scan(item.sig.inputs@) {
        Err(e) => Err(e),
        Ok(s) => if s.context is None {
            Err(ExtractError::MissingContext)
        } else {
            Ok(
                DescriptorView {
                    function: item.sig.ident@,
                    generics: item.sig.generics@,
                    inputs: s.inputs,
                    arguments: s.arguments,
                    context: s.context,
                    clauses: clauses_of(item.attrs@),
                },
            )
        },
    }
}

/// Whether all parameters of `item` are written with a pattern and a type.
pub open spec fn all_typed(inputs: Seq<FnArg>) -> bool {
    forall|i: int| 0 <= i < inputs.len() ==> inputs[i] is Typed
}

/// Reads the contract of `item` off its signature and attributes.  When the
/// handler is eligible, the attributes that make up the contract are taken
/// off it; when it is not, it is left as it is.
pub fn extract(item: &mut ItemFn) -> (r: Result<ContractDescriptor, ExtractError>)
    requires
        all_typed(old(item).sig.inputs@),
    ensures
        final(item).stmts == old(item).stmts,
        final(item).vis == old(item).vis,
        final(item).sig == old(item).sig,
        match r {
            Ok(d) => descriptor_of(*old(item)) == Ok::<DescriptorView, ExtractError>(d@)
                && final(item).attrs@ == passed_through(old(item).attrs@),
            Err(e) => descriptor_of(*old(item)) == Err::<DescriptorView, ExtractError>(e)
                && final(item).attrs == old(item).attrs,
        },
{
    let mut inputs: Vec<Input> = Vec::new();
    let mut arguments: Vec<String> = Vec::new();
    let mut context: Option<ContextParam> = None;
    let mut i: usize = 0;
    let ghost args = item.sig.inputs@;
    assert(args.take(0) =~= Seq::<FnArg>::empty());
    assert(input_views(inputs@) =~= Seq::empty());
    assert(views(arguments@) =~= Seq::empty());
    while i < item.sig.inputs.len()
        invariant
            i <= item.sig.inputs.len(),
            *item == *old(item),
            args == item.sig.inputs@,
            all_typed(args),
            inputs.len() <= i,
            arguments.len() == i,
            scan(args.take(i as int)) == Ok::<ScanView, ExtractError>(
                ScanView {
                    inputs: input_views(inputs@),
                    arguments: views(arguments@),
                    context: context_view(context),
                },
            ),
        decreases item.sig.inputs.len() - i,
    {
        proof {
            assert(args.take(i + 1).drop_last() =~= args.take(i as int));
            assert(args.take(i + 1).last() == args[i as int]);
            if scan(args.take(i + 1)) is Err {
                lemma_scan_prefix_error(args, i + 1);
            }
        }
        let ghost before_inputs = input_views(inputs@);
        let ghost before_arguments = views(arguments@);
        match &item.sig.inputs[i] {
            FnArg::Receiver(_) => {
                assert(args[i as int] is Typed);
            },
            FnArg::Typed(a) => match &a.pat {
                Pat::Other(_) => {
                    return Err(ExtractError::ExpectedIdentifier);
                },
                Pat::Ident { ident, tokens } => {
                    match get_ctx_type(a) {
                        Ok(t) => {
                            if context.is_some() {
                                return Err(ExtractError::DuplicateContext);
                            }
                            context = Some(ContextParam { name: ident.clone(), accounts: t });
                            arguments.push(ident.clone());
                            assert(views(arguments@) =~= before_arguments.push(ident@));
                        },
                        Err(_) => {
                            let ghost made = manufactured(ident@, tokens@, a.ty);
                            let (input, argument) = manufacture(
                                ident.as_str(),
                                tokens.as_str(),
                                &a.ty,
                            );
                            inputs.push(input);
                            arguments.push(argument);
                            assert(input_views(inputs@) =~= before_inputs.push(made.0));
                            assert(views(arguments@) =~= before_arguments.push(made.1));
                        },
                    }
                },
            },
        }
        i = i + 1;
    }
    assert(args.take(item.sig.inputs.len() as int) =~= args);
    if context.is_none() {
        return Err(ExtractError::MissingContext);
    }
    let function = item.sig.ident.clone();
    let generics = item.sig.generics.clone();
    let clauses = take_clauses(&mut item.attrs);
    Ok(ContractDescriptor { function, generics, inputs, arguments, context, clauses })
}

/// An error in a prefix of the parameters is the error of the whole list.
pub proof fn lemma_scan_prefix_error(inputs: Seq<FnArg>, n: int)
    requires
        0 <= n <= inputs.len(),
        scan(inputs.take(n)) is Err,
    ensures
        scan(inputs) == scan(inputs.take(n)),
    decreases inputs.len() - n,
{
    if n < inputs.len() {
        assert(inputs.take(n + 1).drop_last() =~= inputs.take(n));
        lemma_scan_prefix_error(inputs, n + 1);
    } else {
        assert(inputs.take(n) =~= inputs);
    }
}

/// The harness that asserts success under the declared condition, when the
/// contract declares one.
pub fn create_succeeds_if(mod_name: &str, d: &ContractDescriptor) -> (r: Option<Harness>)
    ensures
        r is Some <==> d@.clauses.succeeds_if is Some,
        r matches Some(h) ==> h@ == harness_for_module(HarnessKind::SucceedsIf, mod_name@, d@),
{
    let pools: Vec<PoolDecl> = Vec::new();
    assert(crate::macro_core::harness::pool_views(pools@) =~= Seq::empty());
    synthesize(HarnessKind::SucceedsIf, Some(mod_name), d, &pools, KANI_UNWIND_AMOUNT)
}

/// The harness that asserts failure under the declared condition, when the
/// contract declares one.
pub fn create_errors_if(mod_name: &str, d: &ContractDescriptor) -> (r: Option<Harness>)
    ensures
        r is Some <==> d@.clauses.errors_if is Some,
        r matches Some(h) ==> h@ == harness_for_module(HarnessKind::ErrorsIf, mod_name@, d@),
{
    let pools: Vec<PoolDecl> = Vec::new();
    assert(crate::macro_core::harness::pool_views(pools@) =~= Seq::empty());
    synthesize(HarnessKind::ErrorsIf, Some(mod_name), d, &pools, KANI_UNWIND_AMOUNT)
}

/// The general harness: it asserts that the handler fails or leaves the
/// postcondition and the invariants of the resources in place.
pub fn create_verify(mod_name: &str, d: &ContractDescriptor) -> (h: Harness)
    ensures
        h@ == harness_for_module(HarnessKind::Verify, mod_name@, d@),
{
    let pools: Vec<PoolDecl> = Vec::new();
    assert(crate::macro_core::harness::pool_views(pools@) =~= Seq::empty());
    synthesize(HarnessKind::Verify, Some(mod_name), d, &pools, KANI_UNWIND_AMOUNT).unwrap()
}

/// The harness of kind `kind` for a handler of the module `mod_name`.
pub open spec fn harness_for_module(
    kind: HarnessKind,
    mod_name: Seq<char>,
    d: DescriptorView,
) -> HarnessView {
    crate::macro_core::harness::harness_for(
        kind,
        Some(mod_name),
        d,
        Seq::empty(),
        KANI_UNWIND_AMOUNT as nat,
    )
}

/// The harnesses for a handler of the module `mod_name`: none when the
/// handler is not eligible.
pub open spec fn handler_harnesses(mod_name: Seq<char>, item: ItemFn) -> Seq<HarnessView> {
    match descriptor_of(item) {
        Ok(d) => harnesses_for(Some(mod_name), d, Seq::empty(), KANI_UNWIND_AMOUNT as nat),
        Err(_) => Seq::empty(),
    }
}

/// Whether `after` is what `verification_harness_of` makes of `before`: the
/// statements marked to be left out are gone, and so are the attributes of
/// the contract if the handler is eligible.
pub open spec fn handler_processed(before: ItemFn, after: ItemFn) -> bool {
    &&& after.vis == before.vis
    &&& after.sig == before.sig
    &&& after.stmts@ == kept(before.stmts@)
    &&& after.attrs@ == if descriptor_of(before) is Ok {
        passed_through(before.attrs@)
    } else {
        before.attrs@
    }
}

/// Whether the generators can work on `item`: all its parameters are written
/// with a pattern and a type, and its body declares no items.
pub open spec fn workable(item: ItemFn) -> bool {
    &&& all_typed(item.sig.inputs@)
    &&& forall|i: int| 0 <= i < item.stmts@.len() ==> !(item.stmts@[i] is Item)
}

/// Makes the harnesses for the handler `item` of the module `mod_name`, and
/// takes from `item` what is not to be checked: the statements marked
/// `verify_ignore` always, the attributes of the contract if the handler is
/// eligible.  The general harness comes first, then the one that asserts
/// success, then the one that asserts failure.
pub fn verification_harness_of(mod_name: &str, item: &mut ItemFn) -> (r: Result<
    Vec<Harness>,
    ExtractError,
>)
    requires
        workable(*old(item)),
    ensures
        handler_processed(*old(item), *final(item)),
        match r {
            Ok(hs) => descriptor_of(*old(item)) is Ok && harness_views(hs@) == handler_harnesses(
                mod_name@,
                *old(item),
            ),
            Err(e) => descriptor_of(*old(item)) == Err::<DescriptorView, ExtractError>(e),
        },
{
    remove_verify_ignore_statements(item);
    let ghost stripped = *item;
    assert(descriptor_of(stripped) == descriptor_of(*old(item)));
    match extract(item) {
        Ok(d) => {
            let pools: Vec<PoolDecl> = Vec::new();
            assert(crate::macro_core::harness::pool_views(pools@) =~= Seq::empty());
            Ok(synthesize_all(Some(mod_name), &d, &pools, KANI_UNWIND_AMOUNT))
        },
        Err(e) => Err(e),
    }
}

/// Whether `after` is what `program` makes of the item `before`.
pub open spec fn item_processed(before: Item, after: Item) -> bool {
    match before {
        Item::Fn(f) => after matches Item::Fn(g) && handler_processed(f, g),
        Item::Other(_) => after == before,
    }
}

/// The harnesses for the item `item` of the module `mod_name`.
pub open spec fn item_harnesses(mod_name: Seq<char>, item: Item) -> Seq<HarnessView> {
    match item {
        Item::Fn(f) => handler_harnesses(mod_name, f),
        Item::Other(_) => Seq::empty(),
    }
}

/// The harnesses for all of `items`, in the order of the items.
pub open spec fn module_harnesses(mod_name: Seq<char>, items: Seq<Item>) -> Seq<HarnessView>
    decreases items.len(),
{
    if items.len() == 0 {
        Seq::empty()
    } else {
        module_harnesses(mod_name, items.drop_last()) + item_harnesses(mod_name, items.last())
    }
}

/// A function that got no harness, and why.
#[derive(Debug)]
pub struct Skipped {
    /// The function's name.
    pub function: String,
    /// Why the function is not eligible.
    pub error: ExtractError,
}

/// What `program` makes of a module.
#[derive(Debug)]
pub struct Generated {
    /// The harnesses, in the order of the handlers.
    pub harnesses: Vec<Harness>,
    /// The functions that got no harness, in their order.
    pub skipped: Vec<Skipped>,
}

/// The name and the error of each skipped function.
pub open spec fn skipped_views(skipped: Seq<Skipped>) -> Seq<(Seq<char>, ExtractError)> {
    skipped.map_values(|s: Skipped| (s.function@, s.error))
}

/// The item `item` as a skipped function, if it is a function that is not
/// eligible.
pub open spec fn item_skipped(item: Item) -> Seq<(Seq<char>, ExtractError)> {
    match item {
        Item::Fn(f) => match descriptor_of(f) {
            Ok(_) => Seq::empty(),
            Err(e) => seq![(f.sig.ident@, e)],
        },
        Item::Other(_) => Seq::empty(),
    }
}

/// The functions among `items` that are not eligible, in order.
pub open spec fn module_skipped(items: Seq<Item>) -> Seq<(Seq<char>, ExtractError)>
    decreases items.len(),
{
    if items.len() == 0 {
        Seq::empty()
    } else {
        module_skipped(items.drop_last()) + item_skipped(items.last())
    }
}

/// Whether `item`, if it is a function, is one the generators can work on.
pub open spec fn item_workable(item: Item) -> bool {
    item matches Item::Fn(f) ==> workable(f)
}

/// Whether every function among `items` is one the generators can work on.
pub open spec fn all_workable(items: Seq<Item>) -> bool {
    forall|i: int| 0 <= i < items.len() ==> item_workable(#[trigger] items[i])
}

/// Makes the harnesses for every eligible handler of the module `item`, in
/// the order of the handlers, and takes from each function what is not to be
/// checked.  A function that is not eligible gets no harness and is reported
/// with the reason; items that are no functions stay as they are.
pub fn program(item: &mut ItemMod) -> (generated: Generated)
    requires
        old(item).content matches Some(items) && all_workable(items@),
    ensures
        final(item).head == old(item).head,
        final(item).ident == old(item).ident,
        final(item).content matches Some(after) && after@.len() == old(item).content->0@.len()
            && forall|i: int|
            0 <= i < after@.len() ==> item_processed(
                #[trigger] old(item).content->0@[i],
                after@[i],
            ),
        harness_views(generated.harnesses@) == module_harnesses(
            old(item).ident@,
            old(item).content->0@,
        ),
        skipped_views(generated.skipped@) == module_skipped(old(item).content->0@),
{
    let mut harnesses: Vec<Harness> = Vec::new();
    let mut skipped: Vec<Skipped> = Vec::new();
    assert(skipped_views(skipped@) =~= Seq::empty());
    let mut content: Option<Vec<Item>> = None;
    core::mem::swap(&mut item.content, &mut content);
    let items = content.unwrap();
    let ghost all = items@;
    let mut after: Vec<Item> = Vec::new();
    assert(all.take(0) =~= Seq::<Item>::empty());
    for member in it: items
        invariant
            it.seq() == all,
            all_workable(all),
            item.head == old(item).head,
            item.ident == old(item).ident,
            after@.len() == it.index(),
            forall|i: int| 0 <= i < after@.len() ==> item_processed(#[trigger] all[i], after@[i]),
            harness_views(harnesses@) == module_harnesses(
                item.ident@,
                all.take(it.index() as int),
            ),
            skipped_views(skipped@) == module_skipped(all.take(it.index() as int)),
    {
        let ghost i = it.index() as int;
        proof {
            assert(all.take(i + 1).drop_last() =~= all.take(i));
            assert(all.take(i + 1).last() == member);
            assert(all[i] == member);
        }
        let ghost before = harness_views(harnesses@);
        let ghost skipped_before = skipped_views(skipped@);
        match member {
            Item::Fn(mut f) => {
                let ghost f0 = f;
                match verification_harness_of(item.ident.as_str(), &mut f) {
                    Ok(mut found) => {
                        let ghost found_views = harness_views(found@);
                        let ghost found0 = found@;
                        let ghost harnesses0 = harnesses@;
                        harnesses.append(&mut found);
                        assert(harnesses@ == harnesses0 + found0);
                        assert(harness_views(harnesses@) =~= before + found_views);
                        assert(skipped_views(skipped@) =~= skipped_before + item_skipped(member));
                    },
                    Err(error) => {
                        assert(harness_views(harnesses@) =~= before + Seq::<HarnessView>::empty());
                        skipped.push(Skipped { function: f.sig.ident.clone(), error });
                        assert(skipped_views(skipped@) =~= skipped_before + item_skipped(member));
                    },
                }
                after.push(Item::Fn(f));
            },
            Item::Other(tokens) => {
                assert(harness_views(harnesses@) =~= before + Seq::<HarnessView>::empty());
                assert(skipped_views(skipped@) =~= skipped_before + item_skipped(member));
                after.push(Item::Other(tokens));
            },
        }
    }
    assert(all.take(all.len() as int) =~= all);
    item.content = Some(after);
    Generated { harnesses, skipped }
}

} // verus!
