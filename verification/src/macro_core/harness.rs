//! Harnesses: what a generated proof function manufactures, assumes, calls
//! and asserts, and what the checker's verdict on one explored path is.
//!
//! Every harness follows one course: it manufactures its inputs, assumes what
//! it may assume, invokes the handler, and asserts the expected outcome.  A
//! path on which an assumption fails is discarded; a path on which the
//! assertion fails is a counter-example.  Nothing is retried.

use vstd::prelude::*;
use crate::macro_core::contract::{ContractDescriptor, DescriptorView};
use crate::macro_core::text::{clone_all, views};

verus! {

/// The three kinds of harness.
#[derive(Clone, Copy, Debug, PartialEq, Eq, Structural)]
pub enum HarnessKind {
    /// Asserts that the handler fails or leaves its postcondition and the
    /// invariants of the resources it leaves behind in place.
    Verify,
    /// Asserts that the handler succeeds whenever its condition holds.
    SucceedsIf,
    /// Asserts that the handler fails whenever its condition holds.
    ErrorsIf,
}

/// An input that the harness manufactures: `let pat: ty = <any value>`.
#[derive(Debug)]
pub struct Input {
    /// The pattern that binds the value.
    pub pat: String,
    /// The type of the value.
    pub ty: String,
}

/// A resource type whose pool the harness fills before the call.
#[derive(Debug)]
pub struct PoolDecl {
    /// The resource type.
    pub ty: String,
    /// The type's name in lower case, from which the harness's variable names
    /// are made.
    pub lower: String,
}

/// The context parameter of a handler: the parameter through which the
/// handler takes its resource set.
#[derive(Debug)]
pub struct ContextParam {
    /// The parameter's name.
    pub name: String,
    /// The type arguments of the context, of which the resource set is one.
    pub accounts: String,
}

/// The name and the type arguments of a context parameter, if there is one.
pub open spec fn context_view(context: Option<ContextParam>) -> Option<(Seq<char>, Seq<char>)> {
    match context {
        Some(c) => Some((c.name@, c.accounts@)),
        None => None,
    }
}

/// A copy of a context parameter.
pub fn clone_context(context: &Option<ContextParam>) -> (r: Option<ContextParam>)
    ensures
        r == *context,
{
    match context {
        Some(c) => Some(ContextParam { name: c.name.clone(), accounts: c.accounts.clone() }),
        None => None,
    }
}

/// A harness, ready to be written out as source.
#[derive(Debug)]
pub struct Harness {
    /// The kind of harness.
    pub kind: HarnessKind,
    /// The handler's name.
    pub function: String,
    /// The handler's generic parameters, with their angle brackets.
    pub generics: String,
    /// The loop bound handed to the checker.
    pub unwind: usize,
    /// The plain inputs, in the handler's parameter order.
    pub inputs: Vec<Input>,
    /// The resource types whose pools are filled.
    pub pools: Vec<PoolDecl>,
    /// The context parameter that carries the resource set, when the handler
    /// takes one.
    pub context: Option<ContextParam>,
    /// For `SucceedsIf` and `ErrorsIf` the expression that is assumed before
    /// the call, for `Verify` the postcondition asserted after it.
    pub condition: String,
    /// The arguments of the field-level constraint check, when the check runs
    /// before the call.
    pub constraint_args: Option<Vec<String>>,
    /// The path in front of the handler's name at the call, when there is one.
    pub callee: Option<String>,
    /// The arguments of the call, in order.
    pub arguments: Vec<String>,
}

/// A harness as mathematics.
pub struct HarnessView {
    pub kind: HarnessKind,
    pub function: Seq<char>,
    pub generics: Seq<char>,
    pub unwind: nat,
    pub inputs: Seq<(Seq<char>, Seq<char>)>,
    pub pools: Seq<(Seq<char>, Seq<char>)>,
    pub context: Option<(Seq<char>, Seq<char>)>,
    pub condition: Seq<char>,
    pub constraint_args: Option<Seq<Seq<char>>>,
    pub callee: Option<Seq<char>>,
    pub arguments: Seq<Seq<char>>,
}

/// The pattern and type of each input.
pub open spec fn input_views(inputs: Seq<Input>) -> Seq<(Seq<char>, Seq<char>)> {
    inputs.map_values(|i: Input| (i.pat@, i.ty@))
}

/// The type and lower-case name of each pool.
pub open spec fn pool_views(pools: Seq<PoolDecl>) -> Seq<(Seq<char>, Seq<char>)> {
    pools.map_values(|p: PoolDecl| (p.ty@, p.lower@))
}

/// The text of an optional string.
pub open spec fn opt_view(s: Option<String>) -> Option<Seq<char>> {
    match s {
        Some(t) => Some(t@),
        None => None,
    }
}

impl View for Harness {
    type V = HarnessView;

    open spec fn view(&self) -> HarnessView {
        HarnessView {
            kind: self.kind,
            function: self.function@,
            generics: self.generics@,
            unwind: self.unwind as nat,
            inputs: input_views(self.inputs@),
            pools: pool_views(self.pools@),
            context: context_view(self.context),
            condition: self.condition@,
            constraint_args: match self.constraint_args {
                Some(a) => Some(views(a@)),
                None => None,
            },
            callee: opt_view(self.callee),
            arguments: views(self.arguments@),
        }
    }
}

/// The prefix that a harness of kind `kind` puts before the handler's name.
pub open spec fn prefix(kind: HarnessKind) -> Seq<char> {
    match kind {
        HarnessKind::Verify => "verify_"@,
        HarnessKind::SucceedsIf => "succeeds_if_"@,
        HarnessKind::ErrorsIf => "errors_if_"@,
    }
}

impl HarnessView {
    /// The name of the proof function: the kind's prefix, then the handler's name.
    pub open spec fn name(self) -> Seq<char> {
        prefix(self.kind) + self.function
    }
}

/// The name of a harness tells its kind: harnesses of different kinds have
/// different names, whatever the handlers are called.
pub proof fn lemma_names_tell_kinds(a: HarnessView, b: HarnessView)
    requires
        a.kind != b.kind,
    ensures
        a.name() != b.name(),
{
    reveal_strlit("verify_");
    reveal_strlit("succeeds_if_");
    reveal_strlit("errors_if_");
    assert("verify_"@[0] == 'v');
    assert("succeeds_if_"@[0] == 's');
    assert("errors_if_"@[0] == 'e');
    assert(a.name()[0] == prefix(a.kind)[0]);
    assert(b.name()[0] == prefix(b.kind)[0]);
}

impl Harness {
    /// The name of the proof function: the kind's prefix, then the handler's name.
    pub fn name(&self) -> (r: String)
        ensures
            r@ == self@.name(),
    {
        let mut r = match self.kind {
            HarnessKind::Verify => String::from_str("verify_"),
            HarnessKind::SucceedsIf => String::from_str("succeeds_if_"),
            HarnessKind::ErrorsIf => String::from_str("errors_if_"),
        };
        r.append(self.function.as_str());
        r
    }

    /// Whether the field-level constraint check runs before the call.
    pub fn has_constraint(&self) -> (b: bool)
        ensures
            b == (self@.constraint_args is Some),
    {
        self.constraint_args.is_some()
    }
}

/// A copy of a list of inputs.
pub fn clone_inputs(inputs: &Vec<Input>) -> (r: Vec<Input>)
    ensures
        r@ == inputs@,
{
    let mut r: Vec<Input> = Vec::new();
    let mut i: usize = 0;
    while i < inputs.len()
        invariant
            i <= inputs.len(),
            r@ == inputs@.take(i as int),
        decreases inputs.len() - i,
    {
        r.push(Input { pat: inputs[i].pat.clone(), ty: inputs[i].ty.clone() });
        assert(inputs@.take(i as int).push(inputs@[i as int]) =~= inputs@.take(i + 1));
        i = i + 1;
    }
    assert(inputs@.take(inputs.len() as int) =~= inputs@);
    r
}

/// A copy of a list of pools.
pub fn clone_pools(pools: &Vec<PoolDecl>) -> (r: Vec<PoolDecl>)
    ensures
        r@ == pools@,
{
    let mut r: Vec<PoolDecl> = Vec::new();
    let mut i: usize = 0;
    while i < pools.len()
        invariant
            i <= pools.len(),
            r@ == pools@.take(i as int),
        decreases pools.len() - i,
    {
        r.push(PoolDecl { ty: pools[i].ty.clone(), lower: pools[i].lower.clone() });
        assert(pools@.take(i as int).push(pools@[i as int]) =~= pools@.take(i + 1));
        i = i + 1;
    }
    assert(pools@.take(pools.len() as int) =~= pools@);
    r
}

/// The patterns of `inputs`, in order.
pub open spec fn patterns(inputs: Seq<(Seq<char>, Seq<char>)>) -> Seq<Seq<char>> {
    inputs.map_values(|i: (Seq<char>, Seq<char>)| i.0)
}

/// Whether a harness of kind `kind` exists for the contract `d`: the general
/// harness always does, the others when their condition is declared.
pub open spec fn emitted(kind: HarnessKind, d: DescriptorView) -> bool {
    match kind {
        HarnessKind::Verify => true,
        HarnessKind::SucceedsIf => d.clauses.succeeds_if is Some,
        HarnessKind::ErrorsIf => d.clauses.errors_if is Some,
    }
}

/// The harness of kind `kind` for the contract `d`, calling the handler
/// through `callee`, filling `pools`, with the loop bound `unwind`.
///
/// Its condition is the clause that belongs to its kind.  The constraint
/// check runs when the contract asks for it, the handler takes a context, and
/// the harness is not the general one; it is handed the plain inputs.
pub open spec fn harness_for(
    kind: HarnessKind,
    callee: Option<Seq<char>>,
    d: DescriptorView,
    pools: Seq<(Seq<char>, Seq<char>)>,
    unwind: nat,
) -> HarnessView {
    HarnessView {
        kind,
        function: d.function,
        generics: d.generics,
        unwind,
        inputs: d.inputs,
        pools,
        context: d.context,
        condition: match kind {
            HarnessKind::Verify => d.clauses.post_condition,
            HarnessKind::SucceedsIf => d.clauses.succeeds_if->0,
            HarnessKind::ErrorsIf => d.clauses.errors_if->0,
        },
        constraint_args: if kind != HarnessKind::Verify && d.clauses.has_constraint && d.context is Some {
            Some(patterns(d.inputs))
        } else {
            None
        },
        callee,
        arguments: d.arguments,
    }
}

/// The arguments of the field-level constraint check, when the check runs:
/// the plain inputs, in order.
pub fn create_constraint_check(has_constraint: bool, parameters: &Vec<Input>) -> (r: Option<
    Vec<String>,
>)
    ensures
        r is Some <==> has_constraint,
        r matches Some(args) ==> views(args@) == patterns(input_views(parameters@)),
{
    if !has_constraint {
        return None;
    }
    let mut args: Vec<String> = Vec::new();
    let mut i: usize = 0;
    assert(views(args@) =~= patterns(input_views(parameters@)).take(0));
    while i < parameters.len()
        invariant
            i <= parameters.len(),
            args.len() == i,
            views(args@) == patterns(input_views(parameters@)).take(i as int),
        decreases parameters.len() - i,
    {
        let ghost before = views(args@);
        args.push(parameters[i].pat.clone());
        assert(forall|j: int| 0 <= j < i ==> views(args@)[j] == before[j]);
        assert(views(args@) =~= patterns(input_views(parameters@)).take(i + 1));
        i = i + 1;
    }
    assert(patterns(input_views(parameters@)).take(parameters.len() as int) =~= patterns(
        input_views(parameters@),
    ));
    Some(args)
}

/// Makes the harness of kind `kind` for the contract `d`, if the contract
/// declares what that kind needs.
pub fn synthesize(
    kind: HarnessKind,
    callee: Option<&str>,
    d: &ContractDescriptor,
    pools: &Vec<PoolDecl>,
    unwind: usize,
) -> (r: Option<Harness>)
    ensures
        r is Some <==> emitted(kind, d@),
        r matches Some(h) ==> h@ == harness_for(
            kind,
            match callee {
                Some(c) => Some(c@),
                None => None,
            },
            d@,
            pool_views(pools@),
            unwind as nat,
        ),
{
    let condition = match kind {
        HarnessKind::Verify => d.clauses.post_condition.clone(),
        HarnessKind::SucceedsIf => match &d.clauses.succeeds_if {
            Some(c) => c.clone(),
            None => {
                return None;
            },
        },
        HarnessKind::ErrorsIf => match &d.clauses.errors_if {
            Some(c) => c.clone(),
            None => {
                return None;
            },
        },
    };
    let constrained = match kind {
        HarnessKind::Verify => false,
        _ => d.clauses.has_constraint && d.context.is_some(),
    };
    let constraint_args = create_constraint_check(constrained, &d.inputs);
    let callee = match callee {
        Some(c) => Some(String::from_str(c)),
        None => None,
    };
    Some(
        Harness {
            kind,
            function: d.function.clone(),
            generics: d.generics.clone(),
            unwind,
            inputs: clone_inputs(&d.inputs),
            pools: clone_pools(pools),
            context: clone_context(&d.context),
            condition,
            constraint_args,
            callee,
            arguments: clone_all(&d.arguments),
        },
    )
}

/// The harnesses of a list, each as mathematics.
pub open spec fn harness_views(harnesses: Seq<Harness>) -> Seq<HarnessView> {
    harnesses.map_values(|h: Harness| h@)
}

/// The harness of kind `kind` for the contract `d` if one exists, as a list
/// of at most one.
pub open spec fn harness_if_emitted(
    kind: HarnessKind,
    callee: Option<Seq<char>>,
    d: DescriptorView,
    pools: Seq<(Seq<char>, Seq<char>)>,
    unwind: nat,
) -> Seq<HarnessView> {
    if emitted(kind, d) {
        seq![harness_for(kind, callee, d, pools, unwind)]
    } else {
        Seq::empty()
    }
}

/// All harnesses for the contract `d`: the general one, then the one that
/// asserts success, then the one that asserts failure.
pub open spec fn harnesses_for(
    callee: Option<Seq<char>>,
    d: DescriptorView,
    pools: Seq<(Seq<char>, Seq<char>)>,
    unwind: nat,
) -> Seq<HarnessView> {
    harness_if_emitted(HarnessKind::Verify, callee, d, pools, unwind) + harness_if_emitted(
        HarnessKind::SucceedsIf,
        callee,
        d,
        pools,
        unwind,
    ) + harness_if_emitted(HarnessKind::ErrorsIf, callee, d, pools, unwind)
}

/// Makes all harnesses for the contract `d`.
pub fn synthesize_all(
    callee: Option<&str>,
    d: &ContractDescriptor,
    pools: &Vec<PoolDecl>,
    unwind: usize,
) -> (r: Vec<Harness>)
    ensures
        harness_views(r@) == harnesses_for(
            match callee {
                Some(c) => Some(c@),
                None => None,
            },
            d@,
            pool_views(pools@),
            unwind as nat,
        ),
{
    let mut r: Vec<Harness> = Vec::new();
    let ghost c = match callee {
        Some(c) => Some(c@),
        None => None,
    };
    let ghost p = pool_views(pools@);
    let ghost u = unwind as nat;
    if let Some(h) = synthesize(HarnessKind::Verify, callee, d, pools, unwind) {
        r.push(h);
    }
    assert(harness_views(r@) =~= harness_if_emitted(HarnessKind::Verify, c, d@, p, u));
    let ghost first = harness_views(r@);
    if let Some(h) = synthesize(HarnessKind::SucceedsIf, callee, d, pools, unwind) {
        r.push(h);
    }
    assert(harness_views(r@) =~= first + harness_if_emitted(HarnessKind::SucceedsIf, c, d@, p, u));
    let ghost second = harness_views(r@);
    if let Some(h) = synthesize(HarnessKind::ErrorsIf, callee, d, pools, unwind) {
        r.push(h);
    }
    assert(harness_views(r@) =~= second + harness_if_emitted(HarnessKind::ErrorsIf, c, d@, p, u));
    r
}

/// One explored path: what the checker's choices make of each check.
#[derive(Clone, Copy, Debug, PartialEq, Eq, Structural)]
pub struct Path {
    /// Whether the invariants assumed of the inputs hold before the call.
    pub invariants_before: bool,
    /// The value of the harness's condition where the harness evaluates it.
    pub condition: bool,
    /// Whether the field-level constraint check holds.
    pub constraints: bool,
    /// Whether the handler, if invoked, returns success.
    pub handler_succeeds: bool,
    /// Whether the invariants of the resources left behind hold after the call.
    pub invariants_after: bool,
}

/// The checker's finding on one path.
#[derive(Clone, Copy, Debug, PartialEq, Eq, Structural)]
pub enum Verdict {
    /// An assumption failed: the path says nothing.
    Discarded,
    /// The assertion holds on this path.
    Passed,
    /// The assertion fails on this path.
    CounterExample,
}

/// Where a harness stands on a path.
#[derive(Clone, Copy, Debug, PartialEq, Eq, Structural)]
pub enum Phase {
    Start,
    ManufactureInputs,
    Assume,
    InvokeHandler,
    Success,
    Failure,
    /// About to assert, with the handler's result in hand.
    Assert { succeeded: bool },
    Terminal(Verdict),
}

/// Whether everything that a harness of kind `kind` assumes holds on `path`.
pub open spec fn assumptions_hold(kind: HarnessKind, path: Path) -> bool {
    match kind {
        HarnessKind::Verify => path.invariants_before,
        HarnessKind::SucceedsIf => path.invariants_before && path.condition,
        HarnessKind::ErrorsIf => path.invariants_before && path.condition,
    }
}

/// Whether the call ends in success: a failing constraint check ends it in
/// failure before the handler runs.
pub open spec fn call_succeeds(constrained: bool, path: Path) -> bool {
    (constrained ==> path.constraints) && path.handler_succeeds
}

/// Whether the assertion of a harness of kind `kind` holds, given the result.
pub open spec fn assertion_holds(kind: HarnessKind, succeeded: bool, path: Path) -> bool {
    match kind {
        HarnessKind::Verify => !succeeded || (path.condition && path.invariants_after),
        HarnessKind::SucceedsIf => succeeded,
        HarnessKind::ErrorsIf => !succeeded,
    }
}

/// The checker's finding for a harness of kind `kind` on `path`.
pub open spec fn verdict_of(kind: HarnessKind, constrained: bool, path: Path) -> Verdict {
    if !assumptions_hold(kind, path) {
        Verdict::Discarded
    } else if assertion_holds(kind, call_succeeds(constrained, path), path) {
        Verdict::Passed
    } else {
        Verdict::CounterExample
    }
}

/// The phase that follows `phase`; a terminal phase stays as it is.
pub open spec fn next_phase(kind: HarnessKind, constrained: bool, path: Path, phase: Phase) -> Phase {
    match phase {
        Phase::Start => Phase::ManufactureInputs,
        Phase::ManufactureInputs => Phase::Assume,
        Phase::Assume => if assumptions_hold(kind, path) {
            Phase::InvokeHandler
        } else {
            Phase::Terminal(Verdict::Discarded)
        },
        Phase::InvokeHandler => if call_succeeds(constrained, path) {
            Phase::Success
        } else {
            Phase::Failure
        },
        Phase::Success => Phase::Assert { succeeded: true },
        Phase::Failure => Phase::Assert { succeeded: false },
        Phase::Assert { succeeded } => if assertion_holds(kind, succeeded, path) {
            Phase::Terminal(Verdict::Passed)
        } else {
            Phase::Terminal(Verdict::CounterExample)
        },
        Phase::Terminal(v) => Phase::Terminal(v),
    }
}

/// How many steps are left from `phase` to a terminal phase, at most.
pub open spec fn distance(phase: Phase) -> nat {
    match phase {
        Phase::Start => 6,
        Phase::ManufactureInputs => 5,
        Phase::Assume => 4,
        Phase::InvokeHandler => 3,
        Phase::Success => 2,
        Phase::Failure => 2,
        Phase::Assert { succeeded } => 1,
        Phase::Terminal(_) => 0,
    }
}

/// The phase reached from `phase` after `n` steps.
pub open spec fn phase_after(
    kind: HarnessKind,
    constrained: bool,
    path: Path,
    phase: Phase,
    n: nat,
) -> Phase
    decreases n,
{
    if n == 0 {
        phase
    } else {
        next_phase(kind, constrained, path, phase_after(kind, constrained, path, phase, (n - 1) as nat))
    }
}

impl Harness {
    /// The phase that follows `phase` on `path`.
    pub fn step(&self, path: &Path, phase: Phase) -> (next: Phase)
        ensures
            next == next_phase(self.kind, self@.constraint_args is Some, *path, phase),
            !(phase is Terminal) ==> distance(next) < distance(phase),
    {
        let constrained = self.constraint_args.is_some();
        match phase {
            Phase::Start => Phase::ManufactureInputs,
            Phase::ManufactureInputs => Phase::Assume,
            Phase::Assume => {
                let holds = match self.kind {
                    HarnessKind::Verify => path.invariants_before,
                    HarnessKind::SucceedsIf => path.invariants_before && path.condition,
                    HarnessKind::ErrorsIf => path.invariants_before && path.condition,
                };
                if holds {
                    Phase::InvokeHandler
                } else {
                    Phase::Terminal(Verdict::Discarded)
                }
            },
            Phase::InvokeHandler => {
                if (!constrained || path.constraints) && path.handler_succeeds {
                    Phase::Success
                } else {
                    Phase::Failure
                }
            },
            Phase::Success => Phase::Assert { succeeded: true },
            Phase::Failure => Phase::Assert { succeeded: false },
            Phase::Assert { succeeded } => {
                let holds = match self.kind {
                    HarnessKind::Verify => !succeeded || (path.condition && path.invariants_after),
                    HarnessKind::SucceedsIf => succeeded,
                    HarnessKind::ErrorsIf => !succeeded,
                };
                if holds {
                    Phase::Terminal(Verdict::Passed)
                } else {
                    Phase::Terminal(Verdict::CounterExample)
                }
            },
            Phase::Terminal(v) => Phase::Terminal(v),
        }
    }

    /// Runs the harness on `path` from start to end and returns the finding.
    pub fn run(&self, path: &Path) -> (v: Verdict)
        ensures
            v == verdict_of(self.kind, self@.constraint_args is Some, *path),
    {
        let ghost constrained = self@.constraint_args is Some;
        let mut phase = Phase::Start;
        let mut steps: usize = 0;
        proof {
            lemma_course(self.kind, constrained, *path);
        }
        loop
            invariant
                constrained == (self@.constraint_args is Some),
                steps <= 6,
                phase == phase_after(self.kind, constrained, *path, Phase::Start, steps as nat),
                distance(phase) <= 6 - steps,
                phase_after(self.kind, constrained, *path, Phase::Start, 6) == Phase::Terminal(
                    verdict_of(self.kind, constrained, *path),
                ),
            decreases 6 - steps,
        {
            if let Phase::Terminal(v) = phase {
                proof {
                    lemma_terminal_stays(self.kind, constrained, *path, steps as nat, 6);
                }
                return v;
            }
            phase = self.step(path, phase);
            steps = steps + 1;
        }
    }
}

/// Once a terminal phase is reached, later steps change nothing.
pub proof fn lemma_terminal_stays(
    kind: HarnessKind,
    constrained: bool,
    path: Path,
    n: nat,
    m: nat,
)
    requires
        n <= m,
        phase_after(kind, constrained, path, Phase::Start, n) is Terminal,
    ensures
        phase_after(kind, constrained, path, Phase::Start, m) == phase_after(
            kind,
            constrained,
            path,
            Phase::Start,
            n,
        ),
    decreases m,
{
    if n < m {
        lemma_terminal_stays(kind, constrained, path, n, (m - 1) as nat);
    }
}

/// Every harness reaches a terminal phase within six steps of its start, and
/// the verdict there is the one that `verdict_of` gives.
pub proof fn lemma_course(kind: HarnessKind, constrained: bool, path: Path)
    ensures
        phase_after(kind, constrained, path, Phase::Start, 6) == Phase::Terminal(
            verdict_of(kind, constrained, path),
        ),
{
    reveal_with_fuel(phase_after, 7);
}

/// A harness that asserts success never finds a counter-example on a path on
/// which its condition is true, the handler succeeds, and the constraint
/// check, where it runs, holds.
pub proof fn lemma_succeeds_if_trivial(constrained: bool, path: Path)
    requires
        path.condition,
        path.handler_succeeds,
        constrained ==> path.constraints,
    ensures
        verdict_of(HarnessKind::SucceedsIf, constrained, path) != Verdict::CounterExample,
{
}

/// A harness that asserts failure never finds a counter-example on a path on
/// which the handler fails.
pub proof fn lemma_errors_if_trivial(constrained: bool, path: Path)
    requires
        !path.handler_succeeds,
    ensures
        verdict_of(HarnessKind::ErrorsIf, constrained, path) != Verdict::CounterExample,
{
}

} // verus!
