use otter_solana::macro_core::account::{AccountField, AccountsStruct, ConstraintGroup, Field, Ty};
use otter_solana::macro_core::solana;
use otter_solana::macro_core::space::derive_init_space;
use proc_macro2::TokenStream;
use std::str::FromStr;

fn my_struct() -> AccountsStruct {
    AccountsStruct {
        ident: String::from("MyStruct"),
        generics: String::new(),
        fields: vec![AccountField::Field(Field {
            ident: String::from("my_field"),
            ty: Ty::Other,
            constraints: ConstraintGroup { init: false, close: false, raw: vec![] },
        })],
    }
}

#[test]
fn test_derive_init_space() {
    let expected = TokenStream::from_str(
        "impl Space for MyStruct {
            const INIT_SPACE: usize = 0;
        }",
    )
    .unwrap();

    let res = TokenStream::from_str(&derive_init_space(&my_struct())).unwrap();
    assert_eq!(res.to_string(), expected.to_string());
}

#[test]
fn init_space_keeps_generics() {
    let mut val = my_struct();
    val.generics = String::from("<'info>");
    let res = TokenStream::from_str(&derive_init_space(&val)).unwrap();
    let expected =
        TokenStream::from_str("impl<'info> Space for MyStruct<'info> { const INIT_SPACE: usize = 0; }")
            .unwrap();
    assert_eq!(res.to_string(), expected.to_string());
}

#[test]
fn arbitrary_resource_set_boxes_boxed_fields() {
    let mut val = my_struct();
    val.fields.push(AccountField::Field(Field {
        ident: String::from("big"),
        ty: Ty::Account { boxed: true },
        constraints: ConstraintGroup { init: false, close: false, raw: vec![] },
    }));
    val.fields.push(AccountField::CompositeField(String::from("nested")));
    let res = TokenStream::from_str(&solana::space::derive_init_space(&vec![], &val).unwrap()).unwrap();
    let expected = TokenStream::from_str(
        "impl kani::Arbitrary for MyStruct { fn any() -> Self { Self { my_field: kani::any(), big: Box::new(kani::any()), nested: kani::any() } } }",
    )
    .unwrap();
    assert_eq!(res.to_string(), expected.to_string());
}
