use otter_solana::macro_core::invariants::{attach_check, with_invariant, ItemStruct};
use proc_macro2::TokenStream;
use std::str::FromStr;

struct InvariantTest {
    num: u64,
}

impl InvariantTest {
    pub fn _check_invariant(&self) -> bool {
        self.num == 1
    }
}

struct EmptyInvariantTest;

impl EmptyInvariantTest {
    pub fn _check_invariant(&self) -> bool {
        true
    }
}

fn parses(text: &str) -> bool {
    syn::parse_str::<syn::Expr>(text).is_ok()
}

fn tokens(text: &str) -> String {
    TokenStream::from_str(text).unwrap().to_string()
}

fn invariant_test() -> ItemStruct {
    ItemStruct {
        ident: String::from("InvariantTest"),
        generics: String::new(),
        tokens: String::from("struct InvariantTest { num: u64, }"),
    }
}

fn empty_invariant_test() -> ItemStruct {
    ItemStruct {
        ident: String::from("EmptyInvariantTest"),
        generics: String::new(),
        tokens: String::from("struct EmptyInvariantTest;"),
    }
}

const CHECKED: &str = "struct InvariantTest { num: u64, } impl InvariantTest { pub fn _check_invariant(&self) -> bool { self.num == 1 } }";

const UNCHECKED: &str = "struct EmptyInvariantTest; impl EmptyInvariantTest { pub fn _check_invariant(&self) -> bool { true } }";

#[test]
fn test_invariant_true() {
    assert_eq!(tokens(&with_invariant("self.num == 1", parses("self.num == 1"), &invariant_test())), tokens(CHECKED));
    let t = InvariantTest { num: 1 };
    assert!(t._check_invariant());
}

#[test]
fn test_invariant_false() {
    assert_eq!(tokens(&with_invariant("self.num == 1", parses("self.num == 1"), &invariant_test())), tokens(CHECKED));
    let t = InvariantTest { num: 2 };
    assert!(!t._check_invariant());
}

#[test]
fn test_empty_always_true() {
    assert_eq!(tokens(&with_invariant("", parses(""), &empty_invariant_test())), tokens(UNCHECKED));
    let t = EmptyInvariantTest;
    assert!(t._check_invariant());
}

#[test]
fn invariant_that_is_no_expression_is_true() {
    let out = with_invariant("self.num ==", parses("self.num =="), &empty_invariant_test());
    assert_eq!(tokens(&out), tokens(UNCHECKED));
    let out = with_invariant(")", parses(")"), &empty_invariant_test());
    assert_eq!(tokens(&out), tokens(UNCHECKED));
}

#[test]
fn invariant_check_parses_as_items() {
    let out = with_invariant("self.num > 0 && self.num < 10", true, &invariant_test());
    let file = syn::parse_file(&out).unwrap();
    assert_eq!(file.items.len(), 2);
    let unread = with_invariant("self.num == 1", false, &empty_invariant_test());
    assert_eq!(tokens(&unread), tokens(UNCHECKED));
    let out = attach_check(&invariant_test(), "false");
    assert!(out.ends_with("impl InvariantTest { pub fn _check_invariant(&self) -> bool { false } }\n"));
}
