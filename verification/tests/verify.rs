use otter_solana::macro_core::harness::HarnessKind;
use otter_solana::macro_core::syntax::{
    Attribute, Expr, ExprKind, FnArg, ItemFn, Pat, PatType, Signature, Stmt, Type, TypeArg,
    TypeShape,
};
use otter_solana::macro_core::unpackable::unpackable_checked;
use otter_solana::macro_core::verify::{check_types, pool_decls, verify_checked};

fn attribute(path: &str, args: Option<&str>) -> Attribute {
    Attribute {
        path: String::from(path),
        args: args.map(String::from),
        args_parse: args.map(|a| syn::parse_str::<syn::Expr>(a).is_ok()).unwrap_or(false),
        tokens: match args {
            Some(a) => format!("#[{}({})]", path, a),
            None => format!("#[{}]", path),
        },
    }
}

fn typed(name: &str, ty: &str, shape: TypeShape) -> FnArg {
    FnArg::Typed(PatType {
        pat: Pat::Ident { ident: String::from(name), tokens: String::from(name) },
        ty: Type { tokens: String::from(ty), shape },
    })
}

fn transfer(attrs: Vec<Attribute>) -> ItemFn {
    ItemFn {
        attrs,
        vis: String::from("pub"),
        sig: Signature {
            ident: String::from("process_transfer"),
            generics: String::new(),
            inputs: vec![
                typed(
                    "program_id",
                    "&Pubkey",
                    TypeShape::Reference { elem: String::from("Pubkey"), slice_of: None },
                ),
                typed(
                    "accounts",
                    "&[AccountInfo]",
                    TypeShape::Reference {
                        elem: String::from("[AccountInfo]"),
                        slice_of: Some(String::from("AccountInfo")),
                    },
                ),
                typed("amount", "u64", TypeShape::Other),
            ],
            tokens: String::from(
                "fn process_transfer(program_id: &Pubkey, accounts: &[AccountInfo], amount: u64) -> ProgramResult",
            ),
        },
        stmts: vec![Stmt::Expr(Expr {
            kind: ExprKind::Call,
            attrs: vec![],
            tokens: String::from("Ok(())"),
        })],
    }
}

fn type_arg(text: &str) -> TypeArg {
    TypeArg { tokens: String::from(text), parses: syn::parse_str::<syn::Type>(text).is_ok() }
}

fn types() -> Vec<TypeArg> {
    vec![type_arg("Account"), type_arg("Mint")]
}

#[test]
fn slices_of_accounts_become_bounded_vectors() {
    let mut item = transfer(vec![attribute("succeeds_if", Some("amount < 10"))]);
    let harnesses = verify_checked(&types(), &mut item).unwrap();
    assert_eq!(harnesses.len(), 2);
    let general = &harnesses[0];
    assert_eq!(general.kind, HarnessKind::Verify);
    assert_eq!(general.unwind, 16);
    assert!(general.context.is_none());
    assert_eq!(general.callee.as_deref(), Some("Self"));
    assert_eq!(general.arguments, vec!["&program_id", "&account_infos", "amount"]);
    let inputs: Vec<(&str, &str)> =
        general.inputs.iter().map(|i| (i.pat.as_str(), i.ty.as_str())).collect();
    assert_eq!(
        inputs,
        vec![
            ("program_id", "Pubkey"),
            ("account_infos", "solana_program::vec::fast::Vec<AccountInfo>"),
            ("amount", "u64"),
        ]
    );
    assert!(item.attrs.is_empty());
}

#[test]
fn pools_are_named_in_lower_case() {
    let pools = pool_decls(&types());
    let names: Vec<(&str, &str)> = pools.iter().map(|p| (p.ty.as_str(), p.lower.as_str())).collect();
    assert_eq!(names, vec![("Account", "account"), ("Mint", "mint")]);
    let mut item = transfer(vec![attribute("succeeds_if", Some("true"))]);
    let harnesses = verify_checked(&types(), &mut item).unwrap();
    let general = harnesses[0].source();
    assert!(general.contains("let mut accounts: Vec<Account> = Vec::new(); let account_count: usize = kani::any(); kani::assume(account_count <= 10usize); for _ in 0..account_count { let x = kani::any(); accounts.push(x); kani::assume(x._check_invariant()); }"));
    assert!(!general.contains("after_accounts"));
    assert!(general.contains("let mut before_accounts: Vec<Account> = Vec::new();"));
    assert!(!general.contains("before_mints"));
    assert!(general.contains("init();\nfor x in accounts.iter() { Account::expect_unpack(x.clone()); }\nfor x in mints.iter() { Mint::expect_unpack(x.clone()); }\n"));
    assert!(general.contains("let result = Self::process_transfer(&program_id, &account_infos, amount);\nlet mut post_invariants = true;\nif result.is_ok() { for i in 0..Account::num_used() { post_invariants = post_invariants && Account::get_packed(i)._check_invariant(); } }\nif result.is_ok() { for i in 0..Mint::num_used() { post_invariants = post_invariants && Mint::get_packed(i)._check_invariant(); } }\nassert!(!result.is_ok() || ((true) && post_invariants));\n}"));
    let must_succeed = harnesses[1].source();
    assert!(!must_succeed.contains("before_accounts"));
    assert!(must_succeed.contains("assert!(result.is_ok());"));
    assert!(!must_succeed.contains("post_invariants"));
    assert!(syn::parse_str::<syn::ItemFn>(&general).is_ok());
    assert!(syn::parse_str::<syn::ItemFn>(&must_succeed).is_ok());
}

#[test]
fn handler_that_takes_self_is_called_by_name() {
    let mut item = transfer(vec![]);
    item.sig.inputs.insert(0, typed("self", "Box<Self>", TypeShape::Other));
    let harnesses = verify_checked(&types(), &mut item).unwrap();
    assert_eq!(harnesses[0].callee, None);
    assert!(harnesses[0].source().contains("let result = process_transfer(self, "));
}

#[test]
fn texts_that_are_no_types_are_refused() {
    let bad = vec![type_arg("Account"), type_arg("1 + 1")];
    assert!(!check_types(&bad));
    assert!(check_types(&types()));
    let mut item = transfer(vec![attribute("succeeds_if", Some("true"))]);
    assert!(verify_checked(&bad, &mut item).is_none());
    assert_eq!(item.attrs.len(), 1);
    assert!(unpackable_checked(&bad).is_none());
}

#[test]
fn pattern_that_is_no_name_gets_no_harness() {
    let mut item = transfer(vec![attribute("succeeds_if", Some("true"))]);
    item.sig.inputs.push(FnArg::Typed(PatType {
        pat: Pat::Other(String::from("_")),
        ty: Type { tokens: String::from("u8"), shape: TypeShape::Other },
    }));
    let harnesses = verify_checked(&types(), &mut item).unwrap();
    assert!(harnesses.is_empty());
    assert_eq!(item.attrs.len(), 1);
}

#[test]
fn pools_are_declared_in_upper_case() {
    let out = unpackable_checked(&types()).unwrap();
    assert!(out.contains("static mut ACCOUNTS: Option<Vec<Account>> = None;"));
    assert!(out.contains("static mut ACCOUNT_NEXT: usize = 0;"));
    assert!(out.contains("static mut MINT_NEXT_PACK: usize = 0;"));
    assert!(out.contains("impl Verify for Mint {"));
    assert!(out.contains("fn expect_unpack(x: Self) { unsafe { assert!(ACCOUNTS.as_ref().unwrap().len() < 10usize); ACCOUNTS.as_mut().unwrap().push(x); } }"));
    assert!(out.contains("fn repack(x: Self) { unsafe { assert!(MINT_NEXT_PACK < MINT_NEXT); MINTS.as_mut().unwrap()[MINT_NEXT_PACK] = x; MINT_NEXT_PACK += 1; } }"));
    assert!(out.contains("fn get_next() -> Self { unsafe { assert!(ACCOUNT_NEXT < ACCOUNTS.as_ref().unwrap().len());"));
    assert!(out.contains("fn get_packed(i: usize) -> Self { unsafe { assert!(i < ACCOUNT_NEXT_PACK);"));
    assert!(out.contains("pub fn init() {\nunsafe { ACCOUNTS = Some(Vec::new()); ACCOUNT_NEXT = 0; ACCOUNT_NEXT_PACK = 0; }\nunsafe { MINTS = Some(Vec::new()); MINT_NEXT = 0; MINT_NEXT_PACK = 0; }\n}\n"));
    let file = syn::parse_file(&out).unwrap();
    assert_eq!(file.items.len(), 9);
    let none = unpackable_checked(&vec![]).unwrap();
    assert_eq!(none, "pub fn init() {\n}\n");
}

#[test]
fn repacked_resources_are_fetched_when_the_postcondition_speaks_of_them() {
    let mut item = transfer(vec![
        attribute("post_condition", Some("after_accounts[0].amount == before_accounts[0].amount - amount")),
        attribute("succeeds_if", Some("after_accounts.len() == 0")),
    ]);
    let harnesses = verify_checked(&types(), &mut item).unwrap();
    let general = harnesses[0].source();
    assert!(general.contains("let result = Self::process_transfer(&program_id, &account_infos, amount);\nlet mut after_accounts: Vec<Account> = Vec::new(); if result.is_ok() { for i in 0..Account::num_used() { after_accounts.push(Account::get_packed(i)); } }\nlet mut post_invariants = true;\n"));
    assert!(general.contains("assert!(!result.is_ok() || ((after_accounts[0].amount == before_accounts[0].amount - amount) && post_invariants));"));
    assert!(!general.contains("after_mints"));
    assert!(syn::parse_str::<syn::ItemFn>(&general).is_ok());
    let must_succeed = harnesses[1].source();
    assert!(!must_succeed.contains("let mut after_accounts"));
}

#[test]
fn must_fail_harness_asserts_failure() {
    let mut item = transfer(vec![attribute("errors_if", Some("amount == 0"))]);
    let harnesses = verify_checked(&types(), &mut item).unwrap();
    assert_eq!(harnesses.len(), 2);
    assert_eq!(harnesses[1].kind, HarnessKind::ErrorsIf);
    let source = harnesses[1].source();
    assert!(source.contains("let error_conds = amount == 0;\nkani::assume(error_conds);\ninit();"));
    assert!(source.contains("assert!(result.is_err());"));
    let parsed = syn::parse_str::<syn::ItemFn>(&source).unwrap();
    assert_eq!(parsed.sig.ident.to_string(), "errors_if_process_transfer");
}
