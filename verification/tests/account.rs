use otter_solana::macro_core::account::{
    accounts_impls, create_constraints_checks, create_post_invariants, create_pre_invariants,
    arg_from, declare_id, derive_accounts, instruction_args, instruction_lists, pieces,
    AccountField, AccountsStruct, ArgsError, ConstraintGroup, Field, InstructionArg, ParsedArg, Ty,
};
use otter_solana::macro_core::syntax::Attribute;

fn account(name: &str, init: bool, close: bool, raw: &[&str]) -> AccountField {
    AccountField::Field(Field {
        ident: String::from(name),
        ty: Ty::Account { boxed: false },
        constraints: ConstraintGroup {
            init,
            close,
            raw: raw.iter().map(|r| String::from(*r)).collect(),
        },
    })
}

fn other(name: &str) -> AccountField {
    AccountField::Field(Field {
        ident: String::from(name),
        ty: Ty::Other,
        constraints: ConstraintGroup { init: false, close: false, raw: vec![] },
    })
}

fn create_transaction() -> AccountsStruct {
    AccountsStruct {
        ident: String::from("CreateTransaction"),
        generics: String::from("<'info>"),
        fields: vec![
            account(
                "test_account_mut",
                false,
                false,
                &["test_account_mut.account.value == 1 && test_account_init.account.value == 1 && nonce == 1"],
            ),
            account("test_account_init", true, false, &[]),
            account("test_account_close", false, true, &[]),
            other("creator"),
            other("system_program"),
        ],
    }
}

fn invariant_holds(value: u8) -> bool {
    value == 1
}

#[test]
fn test_invariants() {
    let tx = create_transaction();
    let mut values: [u8; 3] = [1, 1, 1];
    let holds = |values: &[u8; 3]| {
        vec![
            invariant_holds(values[0]),
            invariant_holds(values[1]),
            invariant_holds(values[2]),
            true,
            true,
        ]
    };
    assert!(tx.__pre_invariants(&holds(&values)));

    fn initialize(values: &mut [u8; 3]) {
        values[1] = 1;
    }

    initialize(&mut values);

    assert!(tx.__post_invariants(&holds(&values)));
}

#[test]
fn pre_invariants_skip_newly_created() {
    let set = AccountsStruct {
        ident: String::from("Pair"),
        generics: String::new(),
        fields: vec![account("fresh", true, false, &[]), account("plain", false, false, &[])],
    };
    assert!(set.__pre_invariants(&vec![false, true]));
    assert!(!set.__pre_invariants(&vec![true, false]));
    assert!(!set.__post_invariants(&vec![false, true]));
    assert_eq!(create_pre_invariants(&set), vec![String::from("plain")]);
}

#[test]
fn post_invariants_skip_closed() {
    let set = AccountsStruct {
        ident: String::from("Pair"),
        generics: String::new(),
        fields: vec![account("fresh", true, false, &[]), account("plain", false, true, &[])],
    };
    assert!(set.__post_invariants(&vec![true, false]));
    assert!(!set.__post_invariants(&vec![false, true]));
    assert_eq!(create_post_invariants(&set), vec![String::from("fresh")]);
}

#[test]
fn initialize_establishes_invariant() {
    let set = AccountsStruct {
        ident: String::from("Initialize"),
        generics: String::new(),
        fields: vec![account("state", true, false, &[])],
    };
    let mut value: u8 = 0;
    assert!(set.__pre_invariants(&vec![invariant_holds(value)]));
    value = 1;
    assert!(set.__post_invariants(&vec![invariant_holds(value)]));
    value = 2;
    assert!(!set.__post_invariants(&vec![invariant_holds(value)]));
}

#[test]
fn checks_over_no_resource_are_true() {
    let set = AccountsStruct {
        ident: String::from("Nothing"),
        generics: String::new(),
        fields: vec![other("creator"), AccountField::CompositeField(String::from("nested"))],
    };
    assert!(set.__pre_invariants(&vec![false, false]));
    assert!(set.__post_invariants(&vec![false, false]));
    let check = create_constraints_checks(&set);
    assert!(check.checks.is_empty());
    assert_eq!(check.fields, vec![String::from("creator")]);
    assert!(check.__check_constraints(&vec![]));
}

#[test]
fn constraint_check_is_a_conjunction() {
    let tx = create_transaction();
    let check = create_constraints_checks(&tx);
    assert_eq!(check.checks.len(), 1);
    assert_eq!(check.fields.len(), 5);
    assert!(check.__check_constraints(&vec![true]));
    assert!(!check.__check_constraints(&vec![false]));
}

#[test]
fn derived_source_is_four_items() {
    let tx = create_transaction();
    let args = vec![InstructionArg { name: String::from("nonce"), ty: String::from("u8") }];
    let out = accounts_impls(&tx, &args);
    let file = syn::parse_file(&out).unwrap();
    assert_eq!(file.items.len(), 4);
    assert!(out.contains("pub fn __pre_invariants(&self) -> bool { self.test_account_mut.account._check_invariant() && self.test_account_close.account._check_invariant() }"));
    assert!(out.contains("pub fn __post_invariants(&self) -> bool { self.test_account_mut.account._check_invariant() && self.test_account_init.account._check_invariant() }"));
    assert!(out.contains("pub fn __check_constraints(&self, nonce: u8) -> bool { let test_account_mut = &self.test_account_mut;"));
}

#[test]
fn declared_id_is_first_byte() {
    let out = declare_id("1nc1nerator11111111111111111111111111111111");
    assert!(out.contains("Pubkey { t: [49u8] }"));
    assert!(syn::parse_file(&out).is_ok());
}

fn attribute(path: &str, args: Option<&str>) -> Attribute {
    Attribute {
        path: String::from(path),
        args: args.map(String::from),
        args_parse: args.map(|a| syn::parse_str::<syn::Expr>(a).is_ok()).unwrap_or(false),
        tokens: match args {
            Some(a) => format!("#[{}({})]", path, a),
            None => format!("#[{}]", path),
        },
    }
}

fn parse_piece(piece: &str) -> ParsedArg {
    match syn::parse_str::<syn::ExprType>(piece) {
        Ok(parsed) => {
            let name = quote::ToTokens::to_token_stream(&parsed.expr).to_string();
            let ty = quote::ToTokens::to_token_stream(&parsed.ty).to_string();
            let typed = syn::parse_str::<syn::Type>(&ty).is_ok();
            ParsedArg { ascription: Some((name, ty)), typed }
        }
        Err(_) => ParsedArg { ascription: None, typed: false },
    }
}

fn parse_lists(attrs: &Vec<Attribute>) -> Vec<Option<Vec<ParsedArg>>> {
    instruction_lists(attrs)
        .into_iter()
        .map(|list| list.map(|pieces| pieces.iter().map(|p| parse_piece(p)).collect()))
        .collect()
}

#[test]
fn instruction_attribute_declares_parameters() {
    let attrs = vec![
        attribute("derive", Some("Accounts")),
        attribute("instruction", Some(" nonce: u8, amount : Option<u64> ")),
    ];
    let lists = instruction_lists(&attrs);
    assert_eq!(lists, vec![Some(vec![String::from("nonce: u8"), String::from("amount : Option<u64>")])]);
    assert_eq!(pieces("a ,\tb,"), vec!["a", "b", ""]);
    let args = instruction_args(&parse_lists(&attrs)).unwrap();
    assert_eq!(args.len(), 2);
    assert_eq!(args[0].name, "nonce");
    assert_eq!(args[0].ty, "u8");
    assert_eq!(args[1].name, "amount");
    assert_eq!(args[1].ty, "Option < u64 >");
    let out = derive_accounts(&parse_lists(&attrs), &create_transaction()).unwrap();
    assert!(out.contains("pub fn __check_constraints(&self, nonce: u8, amount: Option < u64 >) -> bool"));
    assert!(syn::parse_file(&out).is_ok());
}

#[test]
fn instruction_attribute_errors() {
    let no_group = vec![attribute("instruction", None)];
    assert_eq!(instruction_lists(&no_group), vec![None]);
    assert_eq!(instruction_args(&parse_lists(&no_group)).unwrap_err(), ArgsError::ExpectedGroup);
    let no_colon = vec![attribute("instruction", Some("nonce"))];
    assert_eq!(
        instruction_args(&parse_lists(&no_colon)).unwrap_err(),
        ArgsError::ExpectedAscription
    );
    let sum = vec![attribute("instruction", Some("a + b: u8"))];
    assert_eq!(instruction_args(&parse_lists(&sum)).unwrap_err(), ArgsError::ExpectedAscription);
    let open_end = vec![attribute("instruction", Some("a: u8,"))];
    assert_eq!(
        instruction_args(&parse_lists(&open_end)).unwrap_err(),
        ArgsError::ExpectedAscription
    );
    let untyped = ParsedArg { ascription: Some((String::from("a"), String::from("1"))), typed: false };
    assert_eq!(arg_from(&untyped).unwrap_err(), ArgsError::ExpectedType);
    assert_eq!(instruction_args(&vec![Some(vec![untyped])]).unwrap_err(), ArgsError::ExpectedType);
    let first_error_wins = vec![
        Some(vec![ParsedArg { ascription: None, typed: false }]),
        None,
    ];
    assert_eq!(instruction_args(&first_error_wins).unwrap_err(), ArgsError::ExpectedAscription);
    let other = vec![attribute("account", None)];
    assert!(instruction_lists(&other).is_empty());
    assert!(instruction_args(&parse_lists(&other)).unwrap().is_empty());
}
