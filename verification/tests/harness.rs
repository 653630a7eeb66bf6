use otter_solana::macro_core::contract::{
    contract_expr, expr_or_true, take_clauses, Clauses, ContractDescriptor, ExtractError,
};
use otter_solana::macro_core::harness::{
    create_constraint_check, synthesize, synthesize_all, ContextParam, Harness, HarnessKind, Input, Path, Phase, PoolDecl, Verdict,
};
use otter_solana::macro_core::program::{
    check_expr_is_ignored, create_errors_if, create_succeeds_if, create_verify, extract,
    get_ctx_type, program, remove_verify_ignore_statements, verification_harness_of,
};
use otter_solana::macro_core::render::{render_all, with_harnesses};
use otter_solana::macro_core::syntax::{
    Attribute, Expr, ExprKind, FnArg, Item, ItemFn, ItemMod, Pat, PatType, PathSegment, Signature,
    Stmt, Type, TypeShape,
};

fn attribute(path: &str, args: Option<&str>) -> Attribute {
    Attribute {
        path: String::from(path),
        args: args.map(String::from),
        args_parse: args.map(|a| syn::parse_str::<syn::Expr>(a).is_ok()).unwrap_or(false),
        tokens: match args {
            Some(a) => format!("#[{}({})]", path, a),
            None => format!("#[{}]", path),
        },
    }
}

fn plain(name: &str, ty: &str) -> FnArg {
    FnArg::Typed(PatType {
        pat: Pat::Ident { ident: String::from(name), tokens: String::from(name) },
        ty: Type { tokens: String::from(ty), shape: TypeShape::Other },
    })
}

fn context(name: &str, accounts: &str) -> FnArg {
    FnArg::Typed(PatType {
        pat: Pat::Ident { ident: String::from(name), tokens: String::from(name) },
        ty: Type {
            tokens: format!("Context<{}>", accounts),
            shape: TypeShape::Path(vec![PathSegment {
                ident: String::from("Context"),
                args: Some(String::from(accounts)),
            }]),
        },
    })
}

fn semi(tokens: &str, attrs: Vec<Attribute>) -> Stmt {
    Stmt::Semi(Expr { kind: ExprKind::Call, attrs, tokens: String::from(tokens) })
}

fn handler(name: &str, attrs: Vec<Attribute>, inputs: Vec<FnArg>, stmts: Vec<Stmt>) -> ItemFn {
    ItemFn {
        attrs,
        vis: String::from("pub"),
        sig: Signature {
            ident: String::from(name),
            generics: String::new(),
            inputs,
            tokens: format!("fn {}(ctx: Context<Initialize>) -> Result<()>", name),
        },
        stmts,
    }
}

fn initialize(attrs: Vec<Attribute>) -> ItemFn {
    handler(
        "initialize",
        attrs,
        vec![context("ctx", "Initialize"), plain("amount", "u64")],
        vec![
            semi("msg!(\"hello\")", vec![attribute("verify_ignore", None)]),
            Stmt::Expr(Expr { kind: ExprKind::Call, attrs: vec![], tokens: String::from("Ok(())") }),
        ],
    )
}

fn all_paths() -> Vec<Path> {
    let mut paths = Vec::new();
    for bits in 0..32u8 {
        paths.push(Path {
            invariants_before: bits & 1 != 0,
            condition: bits & 2 != 0,
            constraints: bits & 4 != 0,
            handler_succeeds: bits & 8 != 0,
            invariants_after: bits & 16 != 0,
        });
    }
    paths
}

fn harness_of(kind: HarnessKind, item: &mut ItemFn) -> Harness {
    let harnesses = verification_harness_of("my_program", item).unwrap();
    harnesses.into_iter().find(|h| h.kind == kind).unwrap()
}

#[test]
fn must_succeed_harness_of_trivial_handler_finds_nothing() {
    let mut item = initialize(vec![attribute("succeeds_if", Some("true"))]);
    let harness = harness_of(HarnessKind::SucceedsIf, &mut item);
    assert_eq!(harness.condition, "true");
    assert!(!harness.has_constraint());
    for path in all_paths() {
        if path.handler_succeeds && path.condition {
            assert_ne!(harness.run(&path), Verdict::CounterExample);
        }
    }
}

#[test]
fn must_fail_harness_of_failing_handler_finds_nothing() {
    let mut item = initialize(vec![
        attribute("errors_if", Some("true")),
        attribute("has_constraint", None),
    ]);
    let harness = harness_of(HarnessKind::ErrorsIf, &mut item);
    assert_eq!(harness.condition, "true");
    assert!(harness.has_constraint());
    for path in all_paths() {
        if !path.handler_succeeds {
            assert_ne!(harness.run(&path), Verdict::CounterExample);
        }
    }
}

#[test]
fn failing_constraint_check_ends_the_call_in_failure() {
    let mut item = initialize(vec![
        attribute("succeeds_if", Some("amount > 0")),
        attribute("has_constraint", None),
    ]);
    let harness = harness_of(HarnessKind::SucceedsIf, &mut item);
    let path = Path {
        invariants_before: true,
        condition: true,
        constraints: false,
        handler_succeeds: true,
        invariants_after: true,
    };
    assert_eq!(harness.run(&path), Verdict::CounterExample);
    let path = Path { constraints: true, ..path };
    assert_eq!(harness.run(&path), Verdict::Passed);
    let path = Path { condition: false, ..path };
    assert_eq!(harness.run(&path), Verdict::Discarded);
}

#[test]
fn general_harness_asserts_failure_or_postcondition_and_invariants() {
    let mut item = initialize(vec![attribute("post_condition", Some("amount == 1"))]);
    let harness = harness_of(HarnessKind::Verify, &mut item);
    assert_eq!(harness.condition, "amount == 1");
    for path in all_paths() {
        let expected = if !path.invariants_before {
            Verdict::Discarded
        } else if !path.handler_succeeds || (path.condition && path.invariants_after) {
            Verdict::Passed
        } else {
            Verdict::CounterExample
        };
        assert_eq!(harness.run(&path), expected);
    }
}

#[test]
fn harness_goes_through_its_phases_once() {
    let mut item = initialize(vec![attribute("succeeds_if", Some("true"))]);
    let harness = harness_of(HarnessKind::SucceedsIf, &mut item);
    let path = Path {
        invariants_before: true,
        condition: true,
        constraints: true,
        handler_succeeds: false,
        invariants_after: true,
    };
    let mut phase = Phase::Start;
    let mut seen = vec![phase];
    for _ in 0..6 {
        phase = harness.step(&path, phase);
        seen.push(phase);
    }
    assert_eq!(
        seen,
        vec![
            Phase::Start,
            Phase::ManufactureInputs,
            Phase::Assume,
            Phase::InvokeHandler,
            Phase::Failure,
            Phase::Assert { succeeded: false },
            Phase::Terminal(Verdict::CounterExample),
        ]
    );
    assert_eq!(harness.step(&path, phase), phase);
}

#[test]
fn harnesses_are_named_by_prefix() {
    let mut item = initialize(vec![
        attribute("doc", Some("\"a handler\"")),
        attribute("succeeds_if", Some("amount > 0")),
        attribute("errors_if", Some("amount == 0")),
    ]);
    let harnesses = verification_harness_of("my_program", &mut item).unwrap();
    let names: Vec<String> = harnesses.iter().map(|h| h.name()).collect();
    assert_eq!(names, vec!["verify_initialize", "succeeds_if_initialize", "errors_if_initialize"]);
    assert_eq!(item.attrs.len(), 1);
    assert_eq!(item.attrs[0].path, "doc");
    assert_eq!(item.stmts.len(), 1);
    for harness in &harnesses {
        assert_eq!(harness.unwind, 100);
        let context = harness.context.as_ref().unwrap();
        assert_eq!((context.name.as_str(), context.accounts.as_str()), ("ctx", "Initialize"));
        assert_eq!(harness.callee.as_deref(), Some("my_program"));
        assert_eq!(harness.arguments, vec!["ctx", "amount"]);
        assert_eq!(harness.inputs.len(), 1);
        assert_eq!(harness.inputs[0].pat, "amount");
        assert_eq!(harness.inputs[0].ty, "u64");
    }
}

#[test]
fn harness_source_is_a_proof_function() {
    let mut item = initialize(vec![
        attribute("succeeds_if", Some("amount > 0")),
        attribute("has_constraint", None),
    ]);
    let harnesses = verification_harness_of("my_program", &mut item).unwrap();
    let file = syn::parse_file(&render_all(&harnesses)).unwrap();
    assert_eq!(file.items.len(), 2);
    let names: Vec<String> = file
        .items
        .iter()
        .map(|i| match i {
            syn::Item::Fn(f) => f.sig.ident.to_string(),
            _ => String::new(),
        })
        .collect();
    assert_eq!(names, vec!["verify_initialize", "succeeds_if_initialize"]);
    let source = harnesses[1].source();
    assert!(source.starts_with("#[kani::proof]\n#[kani::unwind(100)]\npub fn succeeds_if_initialize() {\n"));
    assert!(source.contains("let amount: u64 = kani::any();"));
    assert!(source.contains("let precondition = amount > 0;\nkani::assume(precondition);"));
    assert!(source.contains("let constraints = ctx.accounts.__check_constraints(amount.clone());"));
    assert!(source.contains("let result = if constraints { my_program::initialize(ctx, amount) } else"));
    assert!(source.contains("kani::assert(result.is_ok(),"));
    let general = harnesses[0].source();
    assert!(general.contains("kani::assume(conc.to_ctx().accounts.__pre_invariants());"));
    assert!(general.contains("let result = my_program::initialize(ctx, amount);"));
    assert!(general.contains("kani::assert(result.is_err() || ((true) && conc.to_ctx().accounts.__post_invariants()), \"Function failed\");"));
}

#[test]
fn condition_that_is_no_expression_is_true() {
    assert_eq!(contract_expr(&attribute("succeeds_if", Some("amount >"))), "true");
    assert_eq!(contract_expr(&attribute("succeeds_if", Some(""))), "true");
    assert_eq!(contract_expr(&attribute("succeeds_if", None)), "true");
    assert_eq!(contract_expr(&attribute("succeeds_if", Some("a + b < c"))), "a + b < c");
    assert_eq!(expr_or_true("x", false), "true");
    assert_eq!(expr_or_true("x", true), "x");
}

#[test]
fn last_declaration_of_a_clause_counts() {
    let mut attrs = vec![
        attribute("succeeds_if", Some("a")),
        attribute("inline", None),
        attribute("succeeds_if", Some("b")),
        attribute("has_constraint", None),
        attribute("cfg", Some("test")),
    ];
    let clauses = take_clauses(&mut attrs);
    assert_eq!(clauses.succeeds_if.as_deref(), Some("b"));
    assert_eq!(clauses.errors_if, None);
    assert_eq!(clauses.post_condition, "true");
    assert!(clauses.has_constraint);
    let kept: Vec<&str> = attrs.iter().map(|a| a.path.as_str()).collect();
    assert_eq!(kept, vec!["inline", "cfg"]);
}

#[test]
fn handlers_that_are_not_eligible() {
    let tuple = FnArg::Typed(PatType {
        pat: Pat::Other(String::from("(a, b)")),
        ty: Type { tokens: String::from("(u8, u8)"), shape: TypeShape::Other },
    });
    let mut item = handler("f", vec![], vec![context("ctx", "A"), tuple], vec![]);
    assert_eq!(extract(&mut item).unwrap_err(), ExtractError::ExpectedIdentifier);

    let mut item = handler("f", vec![], vec![plain("ctx", "&u8")], vec![]);
    assert_eq!(extract(&mut item).unwrap_err(), ExtractError::MissingContext);

    let bare = PatType {
        pat: Pat::Ident { ident: String::from("ctx"), tokens: String::from("ctx") },
        ty: Type {
            tokens: String::from("Context"),
            shape: TypeShape::Path(vec![PathSegment { ident: String::from("Context"), args: None }]),
        },
    };
    assert_eq!(get_ctx_type(&bare).unwrap_err(), ExtractError::InvalidContextType);
    let reference = PatType {
        pat: Pat::Ident { ident: String::from("ctx"), tokens: String::from("ctx") },
        ty: Type { tokens: String::from("&u8"), shape: TypeShape::Other },
    };
    assert_eq!(get_ctx_type(&reference).unwrap_err(), ExtractError::InvalidCtxType);
    let mut item = handler("f", vec![], vec![FnArg::Typed(bare)], vec![]);
    assert_eq!(extract(&mut item).unwrap_err(), ExtractError::MissingContext);

    let mut item = handler("f", vec![attribute("succeeds_if", Some("true"))], vec![plain("a", "u8")], vec![]);
    assert_eq!(extract(&mut item).unwrap_err(), ExtractError::MissingContext);
    assert_eq!(item.attrs.len(), 1);

    let mut item = handler("f", vec![], vec![context("first", "A"), context("second", "B")], vec![]);
    assert_eq!(
        verification_harness_of("m", &mut item).unwrap_err(),
        ExtractError::DuplicateContext
    );
    assert_eq!(ExtractError::MissingContext.message(), "missing context parameter");
    assert_eq!(ExtractError::ExpectedIdentifier.message(), "Expected identifier");
    assert_eq!(ExtractError::InvalidCtxType.message(), "Invalid type for ctx");
    assert_eq!(ExtractError::InvalidContextType.message(), "invalid context type");
}

#[test]
fn context_type_is_found_in_any_segment() {
    let param = PatType {
        pat: Pat::Ident { ident: String::from("ctx"), tokens: String::from("ctx") },
        ty: Type {
            tokens: String::from("anchor_lang::Context<'_, '_, '_, 'info, Transfer<'info>>"),
            shape: TypeShape::Path(vec![
                PathSegment { ident: String::from("anchor_lang"), args: None },
                PathSegment {
                    ident: String::from("Context"),
                    args: Some(String::from("'_, '_, '_, 'info, Transfer<'info>")),
                },
            ]),
        },
    };
    assert_eq!(get_ctx_type(&param).unwrap(), "'_, '_, '_, 'info, Transfer<'info>");
}

#[test]
fn ignored_statements_are_removed() {
    let ignore = || vec![attribute("verify_ignore", None)];
    let mut item = handler(
        "f",
        vec![],
        vec![],
        vec![
            Stmt::Local { attrs: ignore(), tokens: String::from("let a = 1;") },
            Stmt::Local { attrs: vec![attribute("allow", Some("unused"))], tokens: String::from("let b = 2;") },
            semi("log(a)", ignore()),
            Stmt::Semi(Expr { kind: ExprKind::Verbatim, attrs: ignore(), tokens: String::from("raw") }),
            Stmt::Expr(Expr { kind: ExprKind::Path, attrs: vec![], tokens: String::from("b") }),
        ],
    );
    remove_verify_ignore_statements(&mut item);
    let texts: Vec<String> = item.stmts.iter().map(|s| s.to_text()).collect();
    assert_eq!(texts, vec!["let b = 2;", "raw;", "b"]);
    assert!(check_expr_is_ignored(&Expr { kind: ExprKind::If, attrs: ignore(), tokens: String::new() }));
    assert!(!check_expr_is_ignored(&Expr { kind: ExprKind::If, attrs: vec![], tokens: String::new() }));
}

#[test]
fn program_makes_harnesses_for_eligible_handlers() {
    let mut module = ItemMod {
        head: String::from("pub mod"),
        ident: String::from("my_program"),
        content: Some(vec![
            Item::Other(String::from("use super::*;")),
            Item::Fn(initialize(vec![attribute("succeeds_if", Some("true"))])),
            Item::Fn(handler("helper", vec![], vec![plain("a", "u8")], vec![])),
        ]),
    };
    let generated = program(&mut module);
    let harnesses = generated.harnesses;
    let names: Vec<String> = harnesses.iter().map(|h| h.name()).collect();
    assert_eq!(names, vec!["verify_initialize", "succeeds_if_initialize"]);
    assert_eq!(generated.skipped.len(), 1);
    assert_eq!(generated.skipped[0].function, "helper");
    assert_eq!(generated.skipped[0].error, ExtractError::MissingContext);
    let out = with_harnesses(module.to_source(), &harnesses);
    let file = syn::parse_file(&out).unwrap();
    assert_eq!(file.items.len(), 3);
    match &file.items[0] {
        syn::Item::Mod(m) => {
            assert_eq!(m.ident.to_string(), "my_program");
            assert_eq!(m.content.as_ref().unwrap().1.len(), 3);
        }
        _ => panic!("expected a module"),
    }
}

#[test]
fn synthesis_follows_the_descriptor() {
    let descriptor = ContractDescriptor {
        function: String::from("withdraw"),
        generics: String::from("<'info>"),
        inputs: vec![Input { pat: String::from("amount"), ty: String::from("u64") }],
        arguments: vec![String::from("ctx"), String::from("amount")],
        context: Some(ContextParam {
            name: String::from("ctx"),
            accounts: String::from("Withdraw<'info>"),
        }),
        clauses: Clauses {
            succeeds_if: None,
            errors_if: Some(String::from("amount == 0")),
            post_condition: String::from("true"),
            has_constraint: true,
        },
    };
    assert!(create_succeeds_if("bank", &descriptor).is_none());
    let must_fail = create_errors_if("bank", &descriptor).unwrap();
    assert_eq!(must_fail.condition, "amount == 0");
    assert_eq!(must_fail.constraint_args, Some(vec![String::from("amount")]));
    let general = create_verify("bank", &descriptor);
    assert_eq!(general.constraint_args, None);
    assert_eq!(general.name(), "verify_withdraw");
    assert_eq!(create_constraint_check(false, &descriptor.inputs), None);
    assert_eq!(create_constraint_check(true, &descriptor.inputs), Some(vec![String::from("amount")]));
    let pools: Vec<PoolDecl> = vec![];
    assert!(synthesize(HarnessKind::SucceedsIf, None, &descriptor, &pools, 7).is_none());
    assert_eq!(synthesize_all(None, &descriptor, &pools, 7).len(), 2);
    assert!(must_fail.source().contains("pub fn errors_if_withdraw<'info>() {"));
    assert!(must_fail.source().contains("let error_conds = amount == 0;\nkani::assume(error_conds);"));
    assert!(must_fail.source().contains("kani::assert(result.is_err(), \"Function succeeded when it should have errored\");"));
    let parsed = syn::parse_str::<syn::ItemFn>(&must_fail.source()).unwrap();
    assert_eq!(parsed.sig.ident.to_string(), "errors_if_withdraw");
    assert_eq!(parsed.attrs.len(), 2);
    assert!(syn::parse_str::<syn::ItemFn>(&general.source()).is_ok());
}

#[test]
fn slices_of_accounts_are_bounded_in_handlers_with_context() {
    let slice = FnArg::Typed(PatType {
        pat: Pat::Ident { ident: String::from("extra"), tokens: String::from("extra") },
        ty: Type {
            tokens: String::from("&[AccountInfo]"),
            shape: TypeShape::Reference {
                elem: String::from("[AccountInfo]"),
                slice_of: Some(String::from("AccountInfo")),
            },
        },
    });
    let key = FnArg::Typed(PatType {
        pat: Pat::Ident { ident: String::from("key"), tokens: String::from("key") },
        ty: Type {
            tokens: String::from("&Pubkey"),
            shape: TypeShape::Reference { elem: String::from("Pubkey"), slice_of: None },
        },
    });
    let mut item = handler("close", vec![], vec![context("ctx", "Close"), slice, key], vec![]);
    let descriptor = extract(&mut item).unwrap();
    assert_eq!(descriptor.arguments, vec!["ctx", "&account_infos", "&key"]);
    let inputs: Vec<(&str, &str)> =
        descriptor.inputs.iter().map(|i| (i.pat.as_str(), i.ty.as_str())).collect();
    assert_eq!(
        inputs,
        vec![("account_infos", "solana_program::vec::fast::Vec<AccountInfo>"), ("key", "Pubkey")]
    );
}

#[test]
fn context_is_known_by_its_type() {
    let mut item = handler(
        "deposit",
        vec![attribute("succeeds_if", Some("amount > 0")), attribute("has_constraint", None)],
        vec![plain("ctx", "u8"), context("c", "Deposit"), plain("amount", "u64")],
        vec![],
    );
    let harnesses = verification_harness_of("bank", &mut item).unwrap();
    let must_succeed = &harnesses[1];
    let context = must_succeed.context.as_ref().unwrap();
    assert_eq!((context.name.as_str(), context.accounts.as_str()), ("c", "Deposit"));
    assert_eq!(must_succeed.arguments, vec!["ctx", "c", "amount"]);
    let source = must_succeed.source();
    assert!(source.contains("let ctx: u8 = kani::any();\nlet amount: u64 = kani::any();\nlet conc: anchor_lang::context::ConcreteContext<Deposit> = kani::any();\nlet c = conc.to_ctx();"));
    assert!(source.contains("let constraints = c.accounts.__check_constraints(ctx.clone(), amount.clone());"));
    assert!(source.contains("bank::deposit(ctx, c, amount)"));
    assert!(syn::parse_str::<syn::ItemFn>(&source).is_ok());
}
