//! Writing a harness out as the source of a proof function.
//!
//! The proof function is named after the handler with the prefix of its
//! kind, so that a driver can find it by name.  It declares the manufactured
//! inputs, states what is assumed, calls the handler and asserts the outcome.

use vstd::prelude::*;
use crate::macro_core::harness::{
    input_views,
    opt_view,
    pool_views,
    Harness,
    HarnessKind,
    HarnessView,
    Input,
    PoolDecl,
};
use crate::macro_core::text::{
    contains,
    decimal,
    ended,
    joined,
    occurs,
    push_ended,
    push_joined,
    str_eq,
    to_decimal,
    views,
};
use crate::macro_core::verify::MAX_UNPACK;

verus! {

/// The declaration that manufactures one input.
pub open spec fn let_line(input: (Seq<char>, Seq<char>)) -> Seq<char> {
    "let "@ + input.0 + ": "@ + input.1 + " = kani::any();"@
}

/// An argument handed on as a copy.
pub open spec fn cloned_arg(arg: Seq<char>) -> Seq<char> {
    arg + ".clone()"@
}

/// The statements that manufacture the resources of one pool: any number of
/// them up to `MAX_UNPACK`, each assumed to satisfy its own invariant.
pub open spec fn pool_fill(pool: (Seq<char>, Seq<char>)) -> Seq<char> {
    "let mut "@ + pool.1 + "s: Vec<"@ + pool.0 + "> = Vec::new(); let "@ + pool.1
        + "_count: usize = kani::any(); kani::assume("@ + pool.1 + "_count <= "@ + decimal(
        MAX_UNPACK as nat,
    ) + "usize); for _ in 0.."@ + pool.1 + "_count { let x = kani::any(); "@ + pool.1
        + "s.push(x); kani::assume(x._check_invariant()); }"@
}

/// The statements that keep a copy of the resources of one pool as they are
/// before the call.
pub open spec fn pool_before(pool: (Seq<char>, Seq<char>)) -> Seq<char> {
    " let mut before_"@ + pool.1 + "s: Vec<"@ + pool.0 + "> = Vec::new(); for x in "@ + pool.1
        + "s.iter() { before_"@ + pool.1 + "s.push(x.clone()); }"@
}

/// Whether a harness of kind `kind` keeps a copy of the resources of `pool`
/// as they are before the call: the general harness does so for accounts.
pub open spec fn keeps_before(kind: HarnessKind, pool: (Seq<char>, Seq<char>)) -> bool {
    kind == HarnessKind::Verify && pool.1 == "account"@
}

/// The statements that declare one pool in a harness of kind `kind`.
pub open spec fn pool_line(kind: HarnessKind, pool: (Seq<char>, Seq<char>)) -> Seq<char> {
    if keeps_before(kind, pool) {
        pool_fill(pool) + pool_before(pool)
    } else {
        pool_fill(pool)
    }
}

/// The name under which a harness keeps the resources of `pool` as the
/// handler wrote them back.
pub open spec fn after_name(pool: (Seq<char>, Seq<char>)) -> Seq<char> {
    "after_"@ + pool.1 + "s"@
}

/// Whether a harness of kind `kind` with the condition `condition` fetches
/// the resources of `pool` as the handler wrote them back: it does so where
/// it keeps them as they were before the call and its condition speaks of
/// them as they are after it.
pub open spec fn fetches_after(
    kind: HarnessKind,
    pool: (Seq<char>, Seq<char>),
    condition: Seq<char>,
) -> bool {
    keeps_before(kind, pool) && occurs(condition, after_name(pool))
}

/// The statements that, after a success, fetch every resource of one pool
/// that the handler took, as the handler wrote it back.
pub open spec fn pool_after(pool: (Seq<char>, Seq<char>)) -> Seq<char> {
    "let mut "@ + after_name(pool) + ": Vec<"@ + pool.0
        + "> = Vec::new(); if result.is_ok() { for i in 0.."@ + pool.0 + "::num_used() { "@
        + after_name(pool) + ".push("@ + pool.0 + "::get_packed(i)); } }\n"@
}

/// The statement that, after a success, weighs the invariant of every
/// resource of one pool that the handler took, as the handler wrote it back.
pub open spec fn pool_invariants(pool: (Seq<char>, Seq<char>)) -> Seq<char> {
    "if result.is_ok() { for i in 0.."@ + pool.0
        + "::num_used() { post_invariants = post_invariants && "@ + pool.0
        + "::get_packed(i)._check_invariant(); } }"@
}

/// What a harness of kind `kind` with the condition `condition` does for one
/// pool after the call.
pub open spec fn after_line(
    kind: HarnessKind,
    pool: (Seq<char>, Seq<char>),
    condition: Seq<char>,
) -> Seq<char> {
    if fetches_after(kind, pool, condition) {
        pool_after(pool)
    } else {
        Seq::empty()
    }
}

/// The statement that supplies the resources of one pool.
pub open spec fn pool_expect(pool: (Seq<char>, Seq<char>)) -> Seq<char> {
    "for x in "@ + pool.1 + "s.iter() { "@ + pool.0 + "::expect_unpack(x.clone()); }"@
}

/// The name under which a harness of kind `kind` binds its condition.
pub open spec fn condition_name(kind: HarnessKind) -> Seq<char> {
    if kind == HarnessKind::ErrorsIf {
        "error_conds"@
    } else {
        "precondition"@
    }
}

impl HarnessView {
    /// The call of the handler.
    pub open spec fn call(self) -> Seq<char> {
        (match self.callee {
            Some(c) => c + "::"@,
            None => Seq::empty(),
        }) + self.function + "("@ + joined(self.arguments, ", "@) + ")"@
    }

    /// The attributes and the signature of the proof function, and the
    /// declarations of the manufactured inputs.
    pub open spec fn header(self) -> Seq<char> {
        "#[kani::proof]\n#[kani::unwind("@ + decimal(self.unwind) + ")]\npub fn "@ + self.name()
            + self.generics + "() {\n"@ + ended(
            self.inputs.map_values(|i: (Seq<char>, Seq<char>)| let_line(i)),
            "\n"@,
        )
    }

    /// The statements that bind and assume the condition; none in the
    /// general harness.
    pub open spec fn assumption(self) -> Seq<char> {
        if self.kind == HarnessKind::Verify {
            Seq::empty()
        } else {
            "let "@ + condition_name(self.kind) + " = "@ + self.condition + ";\nkani::assume("@
                + condition_name(self.kind) + ");\n"@
        }
    }

    /// The name under which the harness binds the context: the name of the
    /// handler's context parameter.
    pub open spec fn context_name(self) -> Seq<char> {
        match self.context {
            Some(c) => c.0,
            None => "ctx"@,
        }
    }

    /// The statement that evaluates the constraint check.
    pub open spec fn constraint_line(self) -> Seq<char> {
        match self.constraint_args {
            Some(args) => "let constraints = "@ + self.context_name()
                + ".accounts.__check_constraints("@ + joined(
                args.map_values(|a: Seq<char>| cloned_arg(a)),
                ", "@,
            ) + ");\n"@,
            None => "let constraints = true;\n"@,
        }
    }

    /// The body of a harness whose handler takes a context with the type
    /// arguments `accounts`.
    pub open spec fn body_with_context(self, accounts: Seq<char>) -> Seq<char> {
        "let conc: anchor_lang::context::ConcreteContext<"@ + accounts + "> = kani::any();\nlet "@
            + self.context_name()
            + " = conc.to_ctx();\nkani::assume(conc.to_ctx().accounts.__pre_invariants());\n"@
            + self.assumption() + match self.kind {
            HarnessKind::Verify => "let result = "@ + self.call()
                + ";\nkani::assert(result.is_err() || (("@ + self.condition
                + ") && conc.to_ctx().accounts.__post_invariants()), \"Function failed\");\n"@,
            HarnessKind::SucceedsIf => self.constraint_line() + "let result = if constraints { "@
                + self.call()
                + " } else { err!(\"constraint check failed\") };\nkani::assert(result.is_ok(), \"function failed to succeed given a precondition\");\n"@,
            HarnessKind::ErrorsIf => self.constraint_line() + "let result = if constraints { "@
                + self.call()
                + " } else { err!(\"constraint check failed\") };\nkani::assert(result.is_err(), \"Function succeeded when it should have errored\");\n"@,
        }
    }

    /// The body of a harness whose handler takes its resources from pools.
    pub open spec fn body_with_pools(self) -> Seq<char> {
        ended(self.pools.map_values(|p: (Seq<char>, Seq<char>)| pool_line(self.kind, p)), "\n"@)
            + self.assumption() + "init();\n"@ + ended(
            self.pools.map_values(|p: (Seq<char>, Seq<char>)| pool_expect(p)),
            "\n"@,
        ) + "let result = "@ + self.call() + ";\n"@ + ended(
            self.pools.map_values(
                |p: (Seq<char>, Seq<char>)| after_line(self.kind, p, self.condition),
            ),
            Seq::empty(),
        ) + match self.kind {
            HarnessKind::Verify => "let mut post_invariants = true;\n"@ + ended(
                self.pools.map_values(|p: (Seq<char>, Seq<char>)| pool_invariants(p)),
                "\n"@,
            ) + "assert!(!result.is_ok() || (("@ + self.condition + ") && post_invariants));\n"@,
            HarnessKind::SucceedsIf => "assert!(result.is_ok());\n"@,
            HarnessKind::ErrorsIf => "assert!(result.is_err());\n"@,
        }
    }

    /// The source of the proof function.
    pub open spec fn source(self) -> Seq<char> {
        self.header() + (match self.context {
            Some(ctx) => self.body_with_context(ctx.1),
            None => self.body_with_pools(),
        }) + "}\n"@
    }
}

/// The declarations that manufacture `inputs`.
fn let_lines(inputs: &Vec<Input>) -> (lines: Vec<String>)
    ensures
        views(lines@) == input_views(inputs@).map_values(|i: (Seq<char>, Seq<char>)| let_line(i)),
{
    let mut lines: Vec<String> = Vec::new();
    let mut i: usize = 0;
    let ghost wanted = input_views(inputs@).map_values(|i: (Seq<char>, Seq<char>)| let_line(i));
    assert(views(lines@) =~= wanted.take(0));
    while i < inputs.len()
        invariant
            i <= inputs.len(),
            wanted == input_views(inputs@).map_values(|i: (Seq<char>, Seq<char>)| let_line(i)),
            wanted.len() == inputs.len(),
            lines.len() == i,
            views(lines@) == wanted.take(i as int),
        decreases inputs.len() - i,
    {
        let mut line = String::from_str("let ");
        line.append(inputs[i].pat.as_str());
        line.append(": ");
        line.append(inputs[i].ty.as_str());
        line.append(" = kani::any();");
        assert(line@ == let_line(input_views(inputs@)[i as int]));
        assert(wanted[i as int] == let_line(input_views(inputs@)[i as int]));
        let ghost before = lines@;
        lines.push(line);
        assert(forall|j: int| 0 <= j < i ==> views(lines@)[j] == views(before)[j]);
        assert(views(lines@) =~= wanted.take(i + 1));
        i = i + 1;
    }
    assert(wanted.take(inputs.len() as int) =~= wanted);
    lines
}

/// Each of `args` handed on as a copy.
fn cloned_args(args: &Vec<String>) -> (r: Vec<String>)
    ensures
        views(r@) == views(args@).map_values(|a: Seq<char>| cloned_arg(a)),
{
    let mut r: Vec<String> = Vec::new();
    let mut i: usize = 0;
    let ghost wanted = views(args@).map_values(|a: Seq<char>| cloned_arg(a));
    assert(views(r@) =~= wanted.take(0));
    while i < args.len()
        invariant
            i <= args.len(),
            wanted == views(args@).map_values(|a: Seq<char>| cloned_arg(a)),
            wanted.len() == args.len(),
            r.len() == i,
            views(r@) == wanted.take(i as int),
        decreases args.len() - i,
    {
        let mut arg = args[i].clone();
        arg.append(".clone()");
        assert(arg@ == cloned_arg(views(args@)[i as int]));
        assert(wanted[i as int] == cloned_arg(views(args@)[i as int]));
        let ghost before = r@;
        r.push(arg);
        assert(forall|j: int| 0 <= j < i ==> views(r@)[j] == views(before)[j]);
        assert(views(r@) =~= wanted.take(i + 1));
        i = i + 1;
    }
    assert(wanted.take(args.len() as int) =~= wanted);
    r
}

/// The statements that declare one pool in a harness of kind `kind`.
fn pool_line_of(kind: HarnessKind, pool: &PoolDecl) -> (line: String)
    ensures
        line@ == pool_line(kind, (pool.ty@, pool.lower@)),
{
    let count = to_decimal(MAX_UNPACK);
    let mut line = String::from_str("let mut ");
    line.append(pool.lower.as_str());
    line.append("s: Vec<");
    line.append(pool.ty.as_str());
    line.append("> = Vec::new(); let ");
    line.append(pool.lower.as_str());
    line.append("_count: usize = kani::any(); kani::assume(");
    line.append(pool.lower.as_str());
    line.append("_count <= ");
    line.append(count.as_str());
    line.append("usize); for _ in 0..");
    line.append(pool.lower.as_str());
    line.append("_count { let x = kani::any(); ");
    line.append(pool.lower.as_str());
    line.append("s.push(x); kani::assume(x._check_invariant()); }");
    assert(line@ == pool_fill((pool.ty@, pool.lower@)));
    let general = match kind {
        HarnessKind::Verify => true,
        _ => false,
    };
    if general && str_eq(pool.lower.as_str(), "account") {
        let mut before = String::from_str(" let mut before_");
        before.append(pool.lower.as_str());
        before.append("s: Vec<");
        before.append(pool.ty.as_str());
        before.append("> = Vec::new(); for x in ");
        before.append(pool.lower.as_str());
        before.append("s.iter() { before_");
        before.append(pool.lower.as_str());
        before.append("s.push(x.clone()); }");
        assert(before@ == pool_before((pool.ty@, pool.lower@)));
        line.append(before.as_str());
    }
    line
}

/// What a harness of kind `kind` with the condition `condition` does for the
/// pool `pool` after the call.
fn after_line_of(kind: HarnessKind, pool: &PoolDecl, condition: &str) -> (line: String)
    ensures
        line@ == after_line(kind, (pool.ty@, pool.lower@), condition@),
{
    let general = match kind {
        HarnessKind::Verify => true,
        _ => false,
    };
    let mut name = String::from_str("after_");
    name.append(pool.lower.as_str());
    name.append("s");
    assert(name@ == after_name((pool.ty@, pool.lower@)));
    if general && str_eq(pool.lower.as_str(), "account") && contains(condition, name.as_str()) {
        let mut line = String::from_str("let mut ");
        line.append(name.as_str());
        line.append(": Vec<");
        line.append(pool.ty.as_str());
        line.append("> = Vec::new(); if result.is_ok() { for i in 0..");
        line.append(pool.ty.as_str());
        line.append("::num_used() { ");
        line.append(name.as_str());
        line.append(".push(");
        line.append(pool.ty.as_str());
        line.append("::get_packed(i)); } }\n");
        line
    } else {
        String::new()
    }
}

/// What a harness of kind `kind` with the condition `condition` does for
/// `pools` after the call.
fn after_lines(kind: HarnessKind, pools: &Vec<PoolDecl>, condition: &str) -> (lines: Vec<String>)
    ensures
        views(lines@) == pool_views(pools@).map_values(
            |p: (Seq<char>, Seq<char>)| after_line(kind, p, condition@),
        ),
{
    let mut lines: Vec<String> = Vec::new();
    let mut i: usize = 0;
    let ghost wanted = pool_views(pools@).map_values(
        |p: (Seq<char>, Seq<char>)| after_line(kind, p, condition@),
    );
    assert(views(lines@) =~= wanted.take(0));
    while i < pools.len()
        invariant
            i <= pools.len(),
            wanted == pool_views(pools@).map_values(
                |p: (Seq<char>, Seq<char>)| after_line(kind, p, condition@),
            ),
            wanted.len() == pools.len(),
            lines.len() == i,
            views(lines@) == wanted.take(i as int),
        decreases pools.len() - i,
    {
        let line = after_line_of(kind, &pools[i], condition);
        assert(wanted[i as int] == after_line(kind, pool_views(pools@)[i as int], condition@));
        let ghost before = lines@;
        lines.push(line);
        assert(forall|j: int| 0 <= j < i ==> views(lines@)[j] == views(before)[j]);
        assert(views(lines@) =~= wanted.take(i + 1));
        i = i + 1;
    }
    assert(wanted.take(pools.len() as int) =~= wanted);
    lines
}

/// The statements that weigh the invariants of the resources of `pools`
/// after a success.
fn invariant_lines(pools: &Vec<PoolDecl>) -> (lines: Vec<String>)
    ensures
        views(lines@) == pool_views(pools@).map_values(
            |p: (Seq<char>, Seq<char>)| pool_invariants(p),
        ),
{
    let mut lines: Vec<String> = Vec::new();
    let mut i: usize = 0;
    let ghost wanted = pool_views(pools@).map_values(
        |p: (Seq<char>, Seq<char>)| pool_invariants(p),
    );
    assert(views(lines@) =~= wanted.take(0));
    while i < pools.len()
        invariant
            i <= pools.len(),
            wanted == pool_views(pools@).map_values(
                |p: (Seq<char>, Seq<char>)| pool_invariants(p),
            ),
            wanted.len() == pools.len(),
            lines.len() == i,
            views(lines@) == wanted.take(i as int),
        decreases pools.len() - i,
    {
        let mut line = String::from_str("if result.is_ok() { for i in 0..");
        line.append(pools[i].ty.as_str());
        line.append("::num_used() { post_invariants = post_invariants && ");
        line.append(pools[i].ty.as_str());
        line.append("::get_packed(i)._check_invariant(); } }");
        assert(line@ == pool_invariants(pool_views(pools@)[i as int]));
        assert(wanted[i as int] == pool_invariants(pool_views(pools@)[i as int]));
        let ghost before = lines@;
        lines.push(line);
        assert(forall|j: int| 0 <= j < i ==> views(lines@)[j] == views(before)[j]);
        assert(views(lines@) =~= wanted.take(i + 1));
        i = i + 1;
    }
    assert(wanted.take(pools.len() as int) =~= wanted);
    lines
}

/// The statements that declare `pools` in a harness of kind `kind`.
fn pool_lines(kind: HarnessKind, pools: &Vec<PoolDecl>) -> (lines: Vec<String>)
    ensures
        views(lines@) == pool_views(pools@).map_values(
            |p: (Seq<char>, Seq<char>)| pool_line(kind, p),
        ),
{
    let mut lines: Vec<String> = Vec::new();
    let mut i: usize = 0;
    let ghost wanted = pool_views(pools@).map_values(
        |p: (Seq<char>, Seq<char>)| pool_line(kind, p),
    );
    assert(views(lines@) =~= wanted.take(0));
    while i < pools.len()
        invariant
            i <= pools.len(),
            wanted == pool_views(pools@).map_values(
                |p: (Seq<char>, Seq<char>)| pool_line(kind, p),
            ),
            wanted.len() == pools.len(),
            lines.len() == i,
            views(lines@) == wanted.take(i as int),
        decreases pools.len() - i,
    {
        let line = pool_line_of(kind, &pools[i]);
        assert(wanted[i as int] == pool_line(kind, pool_views(pools@)[i as int]));
        let ghost before = lines@;
        lines.push(line);
        assert(forall|j: int| 0 <= j < i ==> views(lines@)[j] == views(before)[j]);
        assert(views(lines@) =~= wanted.take(i + 1));
        i = i + 1;
    }
    assert(wanted.take(pools.len() as int) =~= wanted);
    lines
}

/// The statements that supply the resources of `pools`.
fn expect_lines(pools: &Vec<PoolDecl>) -> (lines: Vec<String>)
    ensures
        views(lines@) == pool_views(pools@).map_values(|p: (Seq<char>, Seq<char>)| pool_expect(p)),
{
    let mut lines: Vec<String> = Vec::new();
    let mut i: usize = 0;
    let ghost wanted = pool_views(pools@).map_values(|p: (Seq<char>, Seq<char>)| pool_expect(p));
    assert(views(lines@) =~= wanted.take(0));
    while i < pools.len()
        invariant
            i <= pools.len(),
            wanted == pool_views(pools@).map_values(|p: (Seq<char>, Seq<char>)| pool_expect(p)),
            wanted.len() == pools.len(),
            lines.len() == i,
            views(lines@) == wanted.take(i as int),
        decreases pools.len() - i,
    {
        let mut line = String::from_str("for x in ");
        line.append(pools[i].lower.as_str());
        line.append("s.iter() { ");
        line.append(pools[i].ty.as_str());
        line.append("::expect_unpack(x.clone()); }");
        assert(line@ == pool_expect(pool_views(pools@)[i as int]));
        assert(wanted[i as int] == pool_expect(pool_views(pools@)[i as int]));
        let ghost before = lines@;
        lines.push(line);
        assert(forall|j: int| 0 <= j < i ==> views(lines@)[j] == views(before)[j]);
        assert(views(lines@) =~= wanted.take(i + 1));
        i = i + 1;
    }
    assert(wanted.take(pools.len() as int) =~= wanted);
    lines
}

impl Harness {
    /// The call of the handler.
    pub fn call(&self) -> (r: String)
        ensures
            r@ == self@.call(),
    {
        let mut r = match &self.callee {
            Some(c) => {
                let mut r = c.clone();
                r.append("::");
                r
            },
            None => String::new(),
        };
        r.append(self.function.as_str());
        r.append("(");
        push_joined(&mut r, &self.arguments, ", ");
        r.append(")");
        r
    }

    /// The attributes and the signature of the proof function, and the
    /// declarations of the manufactured inputs.
    pub fn header(&self) -> (r: String)
        ensures
            r@ == self@.header(),
    {
        let unwind = to_decimal(self.unwind);
        let name = self.name();
        let lines = let_lines(&self.inputs);
        let mut r = String::from_str("#[kani::proof]\n#[kani::unwind(");
        r.append(unwind.as_str());
        r.append(")]\npub fn ");
        r.append(name.as_str());
        r.append(self.generics.as_str());
        r.append("() {\n");
        push_ended(&mut r, &lines, "\n");
        r
    }

    /// The statements that bind and assume the condition.
    pub fn assumption(&self) -> (r: String)
        ensures
            r@ == self@.assumption(),
    {
        match self.kind {
            HarnessKind::Verify => String::new(),
            HarnessKind::SucceedsIf => {
                let mut r = String::from_str("let ");
                r.append("precondition");
                r.append(" = ");
                r.append(self.condition.as_str());
                r.append(";\nkani::assume(");
                r.append("precondition");
                r.append(");\n");
                r
            },
            HarnessKind::ErrorsIf => {
                let mut r = String::from_str("let ");
                r.append("error_conds");
                r.append(" = ");
                r.append(self.condition.as_str());
                r.append(";\nkani::assume(");
                r.append("error_conds");
                r.append(");\n");
                r
            },
        }
    }

    /// The statement that evaluates the constraint check.
    pub fn constraint_line(&self) -> (r: String)
        ensures
            r@ == self@.constraint_line(),
    {
        match &self.constraint_args {
            Some(args) => {
                let cloned = cloned_args(args);
                let mut r = String::from_str("let constraints = ");
                match &self.context {
                    Some(c) => {
                        r.append(c.name.as_str());
                    },
                    None => {
                        r.append("ctx");
                    },
                }
                r.append(".accounts.__check_constraints(");
                push_joined(&mut r, &cloned, ", ");
                r.append(");\n");
                r
            },
            None => String::from_str("let constraints = true;\n"),
        }
    }

    /// The body of a harness whose handler takes a context with the type
    /// arguments `accounts`.
    pub fn body_with_context(&self, accounts: &str) -> (r: String)
        ensures
            r@ == self@.body_with_context(accounts@),
    {
        let assumption = self.assumption();
        let call = self.call();
        let mut r = String::from_str("let conc: anchor_lang::context::ConcreteContext<");
        r.append(accounts);
        r.append("> = kani::any();\nlet ");
        match &self.context {
            Some(c) => {
                r.append(c.name.as_str());
            },
            None => {
                r.append("ctx");
            },
        }
        r.append(
            " = conc.to_ctx();\nkani::assume(conc.to_ctx().accounts.__pre_invariants());\n",
        );
        r.append(assumption.as_str());
        let mut tail = String::new();
        match self.kind {
            HarnessKind::Verify => {
                tail = String::from_str("let result = ");
                tail.append(call.as_str());
                tail.append(";\nkani::assert(result.is_err() || ((");
                tail.append(self.condition.as_str());
                tail.append(
                    ") && conc.to_ctx().accounts.__post_invariants()), \"Function failed\");\n",
                );
            },
            HarnessKind::SucceedsIf => {
                tail = self.constraint_line();
                tail.append("let result = if constraints { ");
                tail.append(call.as_str());
                tail.append(
                    " } else { err!(\"constraint check failed\") };\nkani::assert(result.is_ok(), \"function failed to succeed given a precondition\");\n",
                );
            },
            HarnessKind::ErrorsIf => {
                tail = self.constraint_line();
                tail.append("let result = if constraints { ");
                tail.append(call.as_str());
                tail.append(
                    " } else { err!(\"constraint check failed\") };\nkani::assert(result.is_err(), \"Function succeeded when it should have errored\");\n",
                );
            },
        }
        r.append(tail.as_str());
        r
    }

    /// The body of a harness whose handler takes its resources from pools.
    pub fn body_with_pools(&self) -> (r: String)
        ensures
            r@ == self@.body_with_pools(),
    {
        let declared = pool_lines(self.kind, &self.pools);
        let supplied = expect_lines(&self.pools);
        let assumption = self.assumption();
        let call = self.call();
        let mut r = String::new();
        push_ended(&mut r, &declared, "\n");
        assert(r@ =~= ended(views(declared@), "\n"@));
        r.append(assumption.as_str());
        r.append("init();\n");
        push_ended(&mut r, &supplied, "\n");
        let fetched = after_lines(self.kind, &self.pools, self.condition.as_str());
        r.append("let result = ");
        r.append(call.as_str());
        r.append(";\n");
        proof {
            reveal_strlit("");
            assert(""@ =~= Seq::<char>::empty());
        }
        push_ended(&mut r, &fetched, "");
        let mut tail = String::new();
        match self.kind {
            HarnessKind::Verify => {
                let weighed = invariant_lines(&self.pools);
                tail = String::from_str("let mut post_invariants = true;\n");
                push_ended(&mut tail, &weighed, "\n");
                tail.append("assert!(!result.is_ok() || ((");
                tail.append(self.condition.as_str());
                tail.append(") && post_invariants));\n");
            },
            HarnessKind::SucceedsIf => {
                tail = String::from_str("assert!(result.is_ok());\n");
            },
            HarnessKind::ErrorsIf => {
                tail = String::from_str("assert!(result.is_err());\n");
            },
        }
        r.append(tail.as_str());
        r
    }

    /// The source of the proof function.
    pub fn source(&self) -> (r: String)
        ensures
            r@ == self@.source(),
    {
        let mut r = self.header();
        let body = match &self.context {
            Some(ctx) => self.body_with_context(ctx.accounts.as_str()),
            None => self.body_with_pools(),
        };
        r.append(body.as_str());
        r.append("}\n");
        r
    }
}

/// The sources of `harnesses`, one after the other.
pub open spec fn sources(harnesses: Seq<HarnessView>) -> Seq<char> {
    ended(harnesses.map_values(|h: HarnessView| h.source()), Seq::empty())
}

/// Writes out `harnesses` one after the other.
pub fn render_all(harnesses: &Vec<Harness>) -> (out: String)
    ensures
        out@ == sources(crate::macro_core::harness::harness_views(harnesses@)),
{
    let mut texts: Vec<String> = Vec::new();
    let mut i: usize = 0;
    let ghost wanted = crate::macro_core::harness::harness_views(harnesses@).map_values(
        |h: HarnessView| h.source(),
    );
    assert(views(texts@) =~= wanted.take(0));
    while i < harnesses.len()
        invariant
            i <= harnesses.len(),
            wanted == crate::macro_core::harness::harness_views(harnesses@).map_values(
                |h: HarnessView| h.source(),
            ),
            wanted.len() == harnesses.len(),
            texts.len() == i,
            views(texts@) == wanted.take(i as int),
        decreases harnesses.len() - i,
    {
        let text = harnesses[i].source();
        assert(wanted[i as int] == crate::macro_core::harness::harness_views(
            harnesses@,
        )[i as int].source());
        let ghost before = texts@;
        texts.push(text);
        assert(forall|j: int| 0 <= j < i ==> views(texts@)[j] == views(before)[j]);
        assert(views(texts@) =~= wanted.take(i + 1));
        i = i + 1;
    }
    assert(wanted.take(harnesses.len() as int) =~= wanted);
    let mut out = String::new();
    push_ended(&mut out, &texts, "");
    proof {
        reveal_strlit("");
        assert(""@ =~= Seq::<char>::empty());
        assert(out@ =~= ended(views(texts@), ""@));
    }
    assert(out@ =~= sources(crate::macro_core::harness::harness_views(harnesses@)));
    out
}

/// Writes `code` out, followed by `harnesses` one after the other.
pub fn with_harnesses(code: String, harnesses: &Vec<Harness>) -> (out: String)
    ensures
        out@ == code@ + sources(crate::macro_core::harness::harness_views(harnesses@)),
{
    let rendered = render_all(harnesses);
    let mut out = code;
    out.append(rendered.as_str());
    out
}

} // verus!
