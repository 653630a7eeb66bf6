use otter_solana::macro_core::access_control::{access_checks, access_control};
use otter_solana::macro_core::account::account;
use otter_solana::macro_core::error::{error_code, strip_messages, ItemEnum, Variant};
use otter_solana::macro_core::helper_fn::helper_fn;
use otter_solana::macro_core::invariants::ItemStruct;
use otter_solana::macro_core::arbitrary::{
    create_arbitrary_enum, create_arbitrary_struct, arbitrary, get_impl_tokenstream,
    parse_generics, Data, DeriveInput, Fields, GenericParam, Opts,
};
use otter_solana::macro_core::arbitrary as oracle;
use otter_solana::macro_core::syntax::{Attribute, Expr, ExprKind, ItemFn, Signature, Stmt};
use otter_solana::macro_core::text::{
    contains, is_whitespace, split, starts_with, strip_whitespace, to_decimal, trim,
};
use proc_macro2::TokenStream;
use std::str::FromStr;

fn tokens(text: &str) -> String {
    TokenStream::from_str(text).unwrap().to_string()
}

fn attribute(path: &str, args: Option<&str>) -> Attribute {
    Attribute {
        path: String::from(path),
        args: args.map(String::from),
        args_parse: args.map(|a| syn::parse_str::<syn::Expr>(a).is_ok()).unwrap_or(false),
        tokens: match args {
            Some(a) => format!("#[{}({})]", path, a),
            None => format!("#[{}]", path),
        },
    }
}

fn function() -> ItemFn {
    ItemFn {
        attrs: vec![attribute("inline", None)],
        vis: String::from("pub"),
        sig: Signature {
            ident: String::from("withdraw"),
            generics: String::new(),
            inputs: vec![],
            tokens: String::from("fn withdraw(ctx: &Context<Auth>) -> Result<()>"),
        },
        stmts: vec![
            Stmt::Semi(Expr {
                kind: ExprKind::Macro,
                attrs: vec![attribute("verify_ignore", None)],
                tokens: String::from("msg!(\"withdraw\")"),
            }),
            Stmt::Expr(Expr { kind: ExprKind::Call, attrs: vec![], tokens: String::from("Ok(())") }),
        ],
    }
}

#[test]
fn numbers_are_written_in_decimal() {
    assert_eq!(to_decimal(0), "0");
    assert_eq!(to_decimal(9), "9");
    assert_eq!(to_decimal(10), "10");
    assert_eq!(to_decimal(16), "16");
    assert_eq!(to_decimal(100), "100");
    assert_eq!(to_decimal(4096), "4096");
    assert_eq!(to_decimal(usize::MAX), usize::MAX.to_string());
}

#[test]
fn text_is_cut_at_separators() {
    assert_eq!(split("a,b", ','), vec!["a", "b"]);
    assert_eq!(split("", ','), vec![""]);
    assert_eq!(split("a,", ','), vec!["a", ""]);
    assert_eq!(split(",a,,b", ','), vec!["", "a", "", "b"]);
    assert_eq!(split("héllo)wörld", ')'), vec!["héllo", "wörld"]);
    assert_eq!(strip_whitespace(" a\tb \n c "), "abc");
    assert_eq!(trim("  nonce "), "nonce");
    assert_eq!(trim("nonce"), "nonce");
    assert_eq!(trim(" \t\n "), "");
    assert_eq!(trim(""), "");
    assert_eq!(trim("\u{2003}a b\u{3000}"), "a b");
    assert_eq!(trim("x"), "x");
    for code in 0..=0x3100u32 {
        if let Some(c) = char::from_u32(code) {
            assert_eq!(is_whitespace(c), c.is_whitespace());
        }
    }
    for text in [" a", "a ", "\u{85}a\u{a0}", "\u{1680}\u{2028}", "a\u{200b}", "\u{feff}a"] {
        assert_eq!(trim(text), text.trim());
    }
    assert!(contains("before and after", "after"));
    assert!(contains("after", "after"));
    assert!(contains("after", ""));
    assert!(!contains("afte", "after"));
    assert!(!contains("", "a"));
    assert!(contains("aab", "ab"));
    assert!(starts_with("_x", '_'));
    assert!(!starts_with("x_", '_'));
    assert!(!starts_with("", '_'));
}

#[test]
fn access_checks_run_first() {
    assert_eq!(
        access_checks("is_owner(&ctx) is_funded( &ctx , 1 )"),
        vec!["is_owner(&ctx)?;", "is_funded(&ctx,1)?;"]
    );
    assert!(access_checks("  ").is_empty());
    let mut item = function();
    let out = access_control("is_owner(&ctx)", &mut item);
    assert_eq!(
        tokens(&out),
        tokens("#[inline] pub fn withdraw(ctx: &Context<Auth>) -> Result<()> { is_owner(&ctx)?; Ok(()) }")
    );
    assert_eq!(item.stmts.len(), 1);
}

#[test]
fn helper_function_loses_ignored_statements() {
    let mut item = function();
    let out = helper_fn(&mut item);
    assert_eq!(
        tokens(&out),
        tokens("#[inline] pub fn withdraw(ctx: &Context<Auth>) -> Result<()> { Ok(()) }")
    );
}

#[test]
fn error_type_loses_its_messages() {
    let mut val = ItemEnum {
        head: String::from("pub enum"),
        ident: String::from("BankError"),
        generics: String::new(),
        variants: vec![
            Variant {
                attrs: vec![attribute("msg", Some("\"no funds\"")), attribute("allow", Some("dead_code"))],
                tokens: String::from("NoFunds"),
            },
            Variant { attrs: vec![], tokens: String::from("Closed = 7") },
        ],
    };
    let out = error_code(&mut val);
    assert_eq!(val.variants[0].attrs.len(), 1);
    assert_eq!(val.variants[0].attrs[0].path, "allow");
    let file = syn::parse_file(&out).unwrap();
    assert_eq!(file.items.len(), 3);
    assert!(out.starts_with("#[derive(Debug, thiserror::Error)]\npub enum BankError {\n#[allow(dead_code)] NoFunds,\nClosed = 7,\n}\n"));
    assert!(out.contains("impl From<BankError> for anchor_lang::prelude::Error"));
    strip_messages(&mut val);
    assert_eq!(val.variants.len(), 2);
}

#[test]
fn resource_type_gets_its_derives() {
    let item = ItemStruct {
        ident: String::from("Vault"),
        generics: String::new(),
        tokens: String::from("pub struct Vault { pub amount: u64 }"),
    };
    assert_eq!(
        tokens(&account(&item)),
        tokens(
            "#[derive(Arbitrary, AnchorDeserialize, AnchorSerialize)] pub struct Vault { pub amount: u64 } impl AccountSerialize for Vault {} impl AccountDeserialize for Vault {}"
        )
    );
}

#[test]
fn arbitrary_record_skips_internal_fields() {
    let fields = Fields::Named(vec![String::from("amount"), String::from("_padding"), String::from("owner")]);
    assert_eq!(
        tokens(&create_arbitrary_struct("Vault", &fields)),
        tokens("Vault { amount: kani::any(), owner: kani::any(), }")
    );
    assert_eq!(create_arbitrary_struct("Unit", &Fields::Unit), "Unit");
    assert_eq!(
        tokens(&create_arbitrary_struct("Pair", &Fields::Unnamed(2))),
        tokens("Pair(kani::any(), kani::any(),)")
    );
    assert_eq!(tokens(&create_arbitrary_struct("Nothing", &Fields::Unnamed(0))), tokens("Nothing()"));
}

#[test]
fn arbitrary_enumeration_chooses_by_index() {
    let variants = vec![
        oracle::Variant { ident: String::from("Idle"), fields: Fields::Unit, tokens: String::from("Idle") },
        oracle::Variant {
            ident: String::from("Busy"),
            fields: Fields::Named(vec![String::from("since")]),
            tokens: String::from("Busy"),
        },
    ];
    assert_eq!(
        tokens(&create_arbitrary_enum(&variants)),
        tokens("match kani::any::<u8>() { 0u8 => Idle, 1u8 => Busy { since: kani::any(), }, _ => Busy }")
    );
    assert_eq!(tokens(&create_arbitrary_enum(&vec![])), tokens("match kani::any::<u8>() { _ => }"));
    let input = DeriveInput {
        ident: String::from("State"),
        generics: vec![],
        data: Data::Enum(variants),
    };
    let out = arbitrary(&input, &Opts { vector_length: 0, t: None });
    assert_eq!(
        tokens(&out),
        tokens("impl kani::Arbitrary for State { fn any() -> Self { use State::*; match kani::any::<u8>() { 0u8 => Idle, 1u8 => Busy { since: kani::any(), }, _ => Busy } } }")
    );
    assert!(syn::parse_file(&out).is_ok());
}

#[test]
fn oracle_is_written_for_each_listed_type() {
    let generics = vec![
        GenericParam::Lifetime(String::from("'a")),
        GenericParam::Type(String::from("T")),
        GenericParam::Lifetime(String::from("'b")),
    ];
    let lifetimes = parse_generics(&generics);
    assert_eq!(lifetimes, vec!["'a", "'b"]);
    let none: Vec<String> = vec![];
    let body = "fn any() -> Self { Wrap }";
    assert_eq!(
        tokens(&get_impl_tokenstream("Wrap", body, &none, &Opts { vector_length: 0, t: None })),
        tokens("impl kani::Arbitrary for Wrap { fn any() -> Self { Wrap } }")
    );
    assert_eq!(
        tokens(&get_impl_tokenstream("Wrap", body, &lifetimes, &Opts { vector_length: 0, t: None })),
        tokens("impl<'a, 'b> kani::Arbitrary for Wrap<'a, 'b> { fn any() -> Self { Wrap } }")
    );
    let listed = Opts { vector_length: 0, t: Some(String::from("u8, Mint")) };
    assert_eq!(
        tokens(&get_impl_tokenstream("Wrap", body, &none, &listed)),
        tokens("impl kani::Arbitrary for Wrap<u8> { fn any() -> Self { Wrap } } impl kani::Arbitrary for Wrap<Mint> { fn any() -> Self { Wrap } }")
    );
    assert_eq!(
        tokens(&get_impl_tokenstream("Wrap", body, &lifetimes, &listed)),
        tokens("impl<'a, 'b, u8: kani::Arbitrary> kani::Arbitrary for Wrap<'a, 'b, u8> { fn any() -> Self { Wrap } } impl<'a, 'b, Mint: kani::Arbitrary> kani::Arbitrary for Wrap<'a, 'b, Mint> { fn any() -> Self { Wrap } }")
    );
}
