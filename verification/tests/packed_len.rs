use otter_solana::program::borsh::{
    find, get_declaration_packed_len, get_packed_len, primitive, BorshSchemaContainer, Definition,
    Fields,
};

fn s(text: &str) -> String {
    String::from(text)
}

fn definitions() -> Vec<(String, Definition)> {
    vec![
        (s("Key"), Definition::Array { length: 32, elements: s("u8") }),
        (
            s("Meta"),
            Definition::Struct {
                fields: Fields::NamedFields(vec![
                    (s("slot"), s("u64")),
                    (s("index"), s("u8")),
                    (s("authority"), s("Option<Key>")),
                    (s("padding"), s("u16")),
                ]),
            },
        ),
        (
            s("Option<Key>"),
            Definition::Enum { variants: vec![(s("None"), s("nil")), (s("Some"), s("Key"))] },
        ),
        (s("Pair"), Definition::Tuple { elements: vec![s("u128"), s("bool")] }),
        (s("Wrap"), Definition::Struct { fields: Fields::UnnamedFields(vec![s("Pair"), s("i32")]) }),
        (s("Unit"), Definition::Struct { fields: Fields::Empty }),
        (s("Bytes"), Definition::Sequence { elements: s("u8") }),
        (s("Never"), Definition::Enum { variants: vec![] }),
        (s("Loop"), Definition::Struct { fields: Fields::UnnamedFields(vec![s("Loop")]) }),
        (s("Huge"), Definition::Array { length: u32::MAX, elements: s("Huge1") }),
        (s("Huge1"), Definition::Array { length: u32::MAX, elements: s("Huge2") }),
        (s("Huge2"), Definition::Array { length: u32::MAX, elements: s("u8") }),
        (s("Key"), Definition::Array { length: 1, elements: s("u8") }),
    ]
}

fn len(declaration: &str) -> Option<usize> {
    get_packed_len(&BorshSchemaContainer { declaration: s(declaration), definitions: definitions() })
}

#[test]
fn primitives_have_fixed_lengths() {
    for (name, expected) in [
        ("bool", 1),
        ("u8", 1),
        ("i8", 1),
        ("u16", 2),
        ("i16", 2),
        ("u32", 4),
        ("i32", 4),
        ("u64", 8),
        ("i64", 8),
        ("u128", 16),
        ("i128", 16),
        ("nil", 0),
    ] {
        assert_eq!(primitive(name), Some(expected));
        assert_eq!(len(name), Some(expected));
    }
    assert_eq!(primitive("f32"), None);
    assert_eq!(len("f32"), None);
}

#[test]
fn lengths_follow_the_definitions() {
    assert_eq!(len("Key"), Some(32));
    assert_eq!(len("Option<Key>"), Some(33));
    assert_eq!(len("Meta"), Some(8 + 1 + 33 + 2));
    assert_eq!(len("Pair"), Some(17));
    assert_eq!(len("Wrap"), Some(21));
    assert_eq!(len("Unit"), Some(0));
    assert_eq!(len("Never"), Some(1));
}

#[test]
fn some_types_have_no_fixed_length() {
    assert_eq!(len("Bytes"), None);
    assert_eq!(len("Loop"), None);
    assert_eq!(len("Huge"), None);
    assert_eq!(get_declaration_packed_len("Key", &definitions(), 0), None);
    assert_eq!(get_declaration_packed_len("Key", &definitions(), 1), None);
    assert_eq!(get_declaration_packed_len("Key", &definitions(), 2), Some(32));
    assert_eq!(get_declaration_packed_len("u8", &definitions(), 1), Some(1));
}

#[test]
fn first_definition_of_a_declaration_counts() {
    let definitions = definitions();
    match find(&definitions, "Key") {
        Some(Definition::Array { length, .. }) => assert_eq!(*length, 32),
        _ => panic!("expected an array"),
    }
    assert!(find(&definitions, "u8").is_none());
}

#[test]
fn schema_defines_each_declaration_once() {
    let mut schema = BorshSchemaContainer::new(s("Key"));
    assert!(schema.define(s("Key"), Definition::Array { length: 32, elements: s("u8") }));
    assert!(!schema.define(s("Key"), Definition::Array { length: 1, elements: s("u8") }));
    assert!(schema.define(s("Pair"), Definition::Tuple { elements: vec![s("Key"), s("Key")] }));
    assert_eq!(schema.definitions.len(), 2);
    assert_eq!(get_packed_len(&schema), Some(32));
    schema.declaration = s("Pair");
    assert_eq!(get_packed_len(&schema), Some(64));
}
