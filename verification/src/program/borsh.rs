//! The length of a value in its packed form, read off the schema of its
//! type.
//!
//! A schema names a declaration and holds the definitions of the
//! declarations that are no primitives.  The length of a primitive is fixed.
//! The length of an array is the length of its element times its size, that
//! of a record or a tuple the sum of the lengths of its parts, that of an
//! enumeration one byte more than the longest of its variants.  A sequence
//! has no fixed length.

use vstd::prelude::*;
use crate::macro_core::text::str_eq;

verus! {

/// The fields of a record.
#[derive(Debug)]
pub enum Fields {
    /// Fields with names: the name and the declaration of each.
    NamedFields(Vec<(String, String)>),
    /// Fields without names: the declaration of each.
    UnnamedFields(Vec<String>),
    /// No fields.
    Empty,
}

/// The definition of a declaration.
#[derive(Debug)]
#[allow(inconsistent_fields)]
pub enum Definition {
    /// `length` elements of the declaration `elements`.
    Array { length: u32, elements: String },
    /// Any number of elements of the declaration `elements`.
    Sequence { elements: String },
    /// One part of each declaration of `elements`.
    Tuple { elements: Vec<String> },
    /// One of `variants`: the name and the declaration of each.
    Enum { variants: Vec<(String, String)> },
    /// A record with the fields `fields`.
    Struct { fields: Fields },
}

/// A schema: a declaration and the definitions it rests on.
#[derive(Debug)]
pub struct BorshSchemaContainer {
    /// The declaration of the type.
    pub declaration: String,
    /// The definitions, each under the declaration it defines.
    pub definitions: Vec<(String, Definition)>,
}

/// Whether no declaration is defined twice in `definitions`.
pub open spec fn distinct(definitions: Seq<(String, Definition)>) -> bool {
    forall|i: int, j: int|
        0 <= i < j < definitions.len() ==> (#[trigger] definitions[i]).0@ != (
        #[trigger] definitions[j]).0@
}

impl BorshSchemaContainer {
    /// The schema defines no declaration twice: its definitions are a map
    /// from declarations to definitions.
    pub open spec fn wf(&self) -> bool {
        distinct(self.definitions@)
    }

    /// The schema of `declaration` without definitions.
    pub fn new(declaration: String) -> (schema: Self)
        ensures
            schema.wf(),
            schema.declaration == declaration,
            schema.definitions@ == Seq::<(String, Definition)>::empty(),
    {
        BorshSchemaContainer { declaration, definitions: Vec::new() }
    }

    /// Adds the definition of `declaration`, unless the schema defines
    /// `declaration` already; says whether it was added.
    pub fn define(&mut self, declaration: String, definition: Definition) -> (added: bool)
        requires
            old(self).wf(),
        ensures
            final(self).wf(),
            final(self).declaration == old(self).declaration,
            added == (lookup(old(self).definitions@, declaration@) is None),
            added ==> final(self).definitions@ == old(self).definitions@.push(
                (declaration, definition),
            ),
            !added ==> final(self).definitions@ == old(self).definitions@,
    {
        if find(&self.definitions, declaration.as_str()).is_some() {
            return false;
        }
        proof {
            lemma_lookup_none(self.definitions@, declaration@);
        }
        self.definitions.push((declaration, definition));
        true
    }
}

/// A declaration that has no definition stands under no entry.
pub proof fn lemma_lookup_none(definitions: Seq<(String, Definition)>, declaration: Seq<char>)
    requires
        lookup(definitions, declaration) is None,
    ensures
        forall|i: int| 0 <= i < definitions.len() ==> (#[trigger] definitions[i]).0@ != declaration,
    decreases definitions.len(),
{
    if definitions.len() > 0 {
        let rest = definitions.drop_first();
        lemma_lookup_none(rest, declaration);
        assert forall|i: int| 0 <= i < definitions.len() implies (#[trigger] definitions[i]).0@
            != declaration by {
            if i > 0 {
                assert(definitions[i] == rest[i - 1]);
            }
        }
    }
}

/// In a schema that defines no declaration twice, the definition of a
/// declaration is the one of the entry it stands under, wherever that entry
/// stands.
pub proof fn lemma_lookup_at(definitions: Seq<(String, Definition)>, i: int)
    requires
        distinct(definitions),
        0 <= i < definitions.len(),
    ensures
        lookup(definitions, definitions[i].0@) == Some(definitions[i].1),
    decreases i,
{
    if i > 0 {
        let rest = definitions.drop_first();
        assert(definitions[0].0@ != definitions[i].0@);
        assert(rest[i - 1] == definitions[i]);
        assert forall|a: int, b: int| 0 <= a < b < rest.len() implies (#[trigger] rest[a]).0@ != (
        #[trigger] rest[b]).0@ by {
            assert(rest[a] == definitions[a + 1]);
            assert(rest[b] == definitions[b + 1]);
        }
        lemma_lookup_at(rest, i - 1);
    }
}

/// The definition that stands first under `declaration` in `definitions`.
pub open spec fn lookup(definitions: Seq<(String, Definition)>, declaration: Seq<char>) -> Option<
    Definition,
>
    decreases definitions.len(),
{
    if definitions.len() == 0 {
        None
    } else if definitions[0].0@ == declaration {
        Some(definitions[0].1)
    } else {
        lookup(definitions.drop_first(), declaration)
    }
}

/// The packed length of the primitive `declaration`, if it is one.
pub open spec fn primitive_len(declaration: Seq<char>) -> Option<nat> {
    if declaration == "bool"@ || declaration == "u8"@ || declaration == "i8"@ {
        Some(1)
    } else if declaration == "u16"@ || declaration == "i16"@ {
        Some(2)
    } else if declaration == "u32"@ || declaration == "i32"@ {
        Some(4)
    } else if declaration == "u64"@ || declaration == "i64"@ {
        Some(8)
    } else if declaration == "u128"@ || declaration == "i128"@ {
        Some(16)
    } else if declaration == "nil"@ {
        Some(0)
    } else {
        None
    }
}

/// `n` if a machine word holds it.
pub open spec fn bounded(n: nat) -> Option<nat> {
    if n <= usize::MAX {
        Some(n)
    } else {
        None
    }
}

/// The declarations of named parts, in order.
pub open spec fn declarations_of(parts: Seq<(String, String)>) -> Seq<String> {
    parts.map_values(|p: (String, String)| p.1)
}

/// The declarations of the parts of a record.
pub open spec fn field_declarations(fields: Fields) -> Seq<String> {
    match fields {
        Fields::NamedFields(named) => declarations_of(named@),
        Fields::UnnamedFields(unnamed) => unnamed@,
        Fields::Empty => Seq::empty(),
    }
}

/// The packed length of `declaration` under `definitions`, looking at most
/// `fuel` definitions deep.  There is none when a sequence or an unknown
/// primitive is met, when the definitions run deeper than `fuel`, or when a
/// length on the way does not fit a machine word.
pub open spec fn packed_len(
    declaration: Seq<char>,
    definitions: Seq<(String, Definition)>,
    fuel: nat,
) -> Option<nat>
    decreases fuel, 0nat,
{
    if fuel == 0 {
        None
    } else {
        match lookup(definitions, declaration) {
            Some(Definition::Array { length, elements }) => match packed_len(
                elements@,
                definitions,
                (fuel - 1) as nat,
            ) {
                Some(each) => bounded(length as nat * each),
                None => None,
            },
            Some(Definition::Enum { variants }) => match longest(
                declarations_of(variants@),
                definitions,
                (fuel - 1) as nat,
            ) {
                Some(most) => bounded(1 + most),
                None => None,
            },
            Some(Definition::Struct { fields }) => total(
                field_declarations(fields),
                definitions,
                (fuel - 1) as nat,
            ),
            Some(Definition::Sequence { elements }) => None,
            Some(Definition::Tuple { elements }) => total(
                elements@,
                definitions,
                (fuel - 1) as nat,
            ),
            None => primitive_len(declaration),
        }
    }
}

/// The sum of the packed lengths of `parts`.
pub open spec fn total(parts: Seq<String>, definitions: Seq<(String, Definition)>, fuel: nat) -> Option<
    nat,
>
    decreases fuel, parts.len() + 1,
{
    if parts.len() == 0 {
        Some(0)
    } else {
        match (
            total(parts.drop_last(), definitions, fuel),
            packed_len(parts.last()@, definitions, fuel),
        ) {
            (Some(before), Some(last)) => bounded(before + last),
            _ => None,
        }
    }
}

/// The greatest of the packed lengths of `parts`; zero when there are none.
pub open spec fn longest(parts: Seq<String>, definitions: Seq<(String, Definition)>, fuel: nat) -> Option<
    nat,
>
    decreases fuel, parts.len() + 1,
{
    if parts.len() == 0 {
        Some(0)
    } else {
        match (
            longest(parts.drop_last(), definitions, fuel),
            packed_len(parts.last()@, definitions, fuel),
        ) {
            (Some(before), Some(last)) => Some(
                if before >= last {
                    before
                } else {
                    last
                },
            ),
            _ => None,
        }
    }
}

/// The definition that stands first under `declaration` in `definitions`.
pub fn find<'a>(definitions: &'a Vec<(String, Definition)>, declaration: &str) -> (r: Option<
    &'a Definition,
>)
    ensures
        match r {
            Some(d) => lookup(definitions@, declaration@) == Some(*d),
            None => lookup(definitions@, declaration@) is None,
        },
{
    let mut i: usize = 0;
    assert(definitions@.skip(0) =~= definitions@);
    while i < definitions.len()
        invariant
            i <= definitions.len(),
            lookup(definitions@, declaration@) == lookup(definitions@.skip(i as int), declaration@),
        decreases definitions.len() - i,
    {
        assert(definitions@.skip(i as int)[0] == definitions@[i as int]);
        assert(definitions@.skip(i as int).drop_first() =~= definitions@.skip(i + 1));
        if str_eq(definitions[i].0.as_str(), declaration) {
            return Some(&definitions[i].1);
        }
        i = i + 1;
    }
    assert(definitions@.skip(i as int).len() == 0);
    None
}

/// The packed length of the primitive `declaration`, if it is one.
pub fn primitive(declaration: &str) -> (r: Option<usize>)
    ensures
        match r {
            Some(n) => primitive_len(declaration@) == Some(n as nat),
            None => primitive_len(declaration@) is None,
        },
{
    if str_eq(declaration, "bool") || str_eq(declaration, "u8") || str_eq(declaration, "i8") {
        Some(1)
    } else if str_eq(declaration, "u16") || str_eq(declaration, "i16") {
        Some(2)
    } else if str_eq(declaration, "u32") || str_eq(declaration, "i32") {
        Some(4)
    } else if str_eq(declaration, "u64") || str_eq(declaration, "i64") {
        Some(8)
    } else if str_eq(declaration, "u128") || str_eq(declaration, "i128") {
        Some(16)
    } else if str_eq(declaration, "nil") {
        Some(0)
    } else {
        None
    }
}

/// What a length that was computed stands for.
pub open spec fn as_nat(r: Option<usize>) -> Option<nat> {
    match r {
        Some(n) => Some(n as nat),
        None => None,
    }
}

/// The sum of the packed lengths of the second halves of `parts`.
fn total_of_named(parts: &Vec<(String, String)>, definitions: &Vec<(String, Definition)>, fuel: usize) -> (r:
    Option<usize>)
    ensures
        as_nat(r) == total(declarations_of(parts@), definitions@, fuel as nat),
    decreases fuel, parts.len() + 1,
{
    let mut sum: usize = 0;
    let mut i: usize = 0;
    let ghost all = declarations_of(parts@);
    assert(all.take(0) =~= Seq::<String>::empty());
    while i < parts.len()
        invariant
            i <= parts.len(),
            all == declarations_of(parts@),
            total(all.take(i as int), definitions@, fuel as nat) == Some(sum as nat),
        decreases parts.len() - i,
    {
        proof {
            assert(all.take(i + 1).drop_last() =~= all.take(i as int));
            assert(all.take(i + 1).last() == parts@[i as int].1);
            if total(all.take(i + 1), definitions@, fuel as nat) is None {
                lemma_total_prefix(all, definitions@, fuel as nat, i + 1);
            }
        }
        let part = match get_declaration_packed_len(parts[i].1.as_str(), definitions, fuel) {
            Some(n) => n,
            None => {
                return None;
            },
        };
        sum = match sum.checked_add(part) {
            Some(n) => n,
            None => {
                return None;
            },
        };
        i = i + 1;
    }
    assert(all.take(parts.len() as int) =~= all);
    Some(sum)
}

/// The sum of the packed lengths of `parts`.
fn total_of(parts: &Vec<String>, definitions: &Vec<(String, Definition)>, fuel: usize) -> (r: Option<
    usize,
>)
    ensures
        as_nat(r) == total(parts@, definitions@, fuel as nat),
    decreases fuel, parts.len() + 1,
{
    let mut sum: usize = 0;
    let mut i: usize = 0;
    let ghost all = parts@;
    assert(all.take(0) =~= Seq::<String>::empty());
    while i < parts.len()
        invariant
            i <= parts.len(),
            all == parts@,
            total(all.take(i as int), definitions@, fuel as nat) == Some(sum as nat),
        decreases parts.len() - i,
    {
        proof {
            assert(all.take(i + 1).drop_last() =~= all.take(i as int));
            assert(all.take(i + 1).last() == parts@[i as int]);
            if total(all.take(i + 1), definitions@, fuel as nat) is None {
                lemma_total_prefix(all, definitions@, fuel as nat, i + 1);
            }
        }
        let part = match get_declaration_packed_len(parts[i].as_str(), definitions, fuel) {
            Some(n) => n,
            None => {
                return None;
            },
        };
        sum = match sum.checked_add(part) {
            Some(n) => n,
            None => {
                return None;
            },
        };
        i = i + 1;
    }
    assert(all.take(parts.len() as int) =~= all);
    Some(sum)
}

/// The greatest of the packed lengths of the second halves of `parts`.
fn longest_of_named(parts: &Vec<(String, String)>, definitions: &Vec<(String, Definition)>, fuel: usize) -> (r:
    Option<usize>)
    ensures
        as_nat(r) == longest(declarations_of(parts@), definitions@, fuel as nat),
    decreases fuel, parts.len() + 1,
{
    let mut most: usize = 0;
    let mut i: usize = 0;
    let ghost all = declarations_of(parts@);
    assert(all.take(0) =~= Seq::<String>::empty());
    while i < parts.len()
        invariant
            i <= parts.len(),
            all == declarations_of(parts@),
            longest(all.take(i as int), definitions@, fuel as nat) == Some(most as nat),
        decreases parts.len() - i,
    {
        proof {
            assert(all.take(i + 1).drop_last() =~= all.take(i as int));
            assert(all.take(i + 1).last() == parts@[i as int].1);
            if longest(all.take(i + 1), definitions@, fuel as nat) is None {
                lemma_longest_prefix(all, definitions@, fuel as nat, i + 1);
            }
        }
        let part = match get_declaration_packed_len(parts[i].1.as_str(), definitions, fuel) {
            Some(n) => n,
            None => {
                return None;
            },
        };
        if part > most {
            most = part;
        }
        i = i + 1;
    }
    assert(all.take(parts.len() as int) =~= all);
    Some(most)
}

/// A sum that has no value for the first `n` parts has none for all parts.
pub proof fn lemma_total_prefix(
    parts: Seq<String>,
    definitions: Seq<(String, Definition)>,
    fuel: nat,
    n: int,
)
    requires
        0 <= n <= parts.len(),
        total(parts.take(n), definitions, fuel) is None,
    ensures
        total(parts, definitions, fuel) is None,
    decreases parts.len() - n,
{
    if n < parts.len() {
        assert(parts.take(n + 1).drop_last() =~= parts.take(n));
        lemma_total_prefix(parts, definitions, fuel, n + 1);
    } else {
        assert(parts.take(n) =~= parts);
    }
}

/// A maximum that has no value for the first `n` parts has none for all
/// parts.
pub proof fn lemma_longest_prefix(
    parts: Seq<String>,
    definitions: Seq<(String, Definition)>,
    fuel: nat,
    n: int,
)
    requires
        0 <= n <= parts.len(),
        longest(parts.take(n), definitions, fuel) is None,
    ensures
        longest(parts, definitions, fuel) is None,
    decreases parts.len() - n,
{
    if n < parts.len() {
        assert(parts.take(n + 1).drop_last() =~= parts.take(n));
        lemma_longest_prefix(parts, definitions, fuel, n + 1);
    } else {
        assert(parts.take(n) =~= parts);
    }
}

/// The packed length of `declaration` under `definitions`, looking at most
/// `fuel` definitions deep.
pub fn get_declaration_packed_len(
    declaration: &str,
    definitions: &Vec<(String, Definition)>,
    fuel: usize,
) -> (r: Option<usize>)
    ensures
        as_nat(r) == packed_len(declaration@, definitions@, fuel as nat),
    decreases fuel, 0nat,
{
    if fuel == 0 {
        return None;
    }
    match find(definitions, declaration) {
        Some(Definition::Array { length, elements }) => {
            match get_declaration_packed_len(elements.as_str(), definitions, fuel - 1) {
                Some(each) => (*length as usize).checked_mul(each),
                None => None,
            }
        },
        Some(Definition::Enum { variants }) => {
            match longest_of_named(variants, definitions, fuel - 1) {
                Some(most) => most.checked_add(1),
                None => None,
            }
        },
        Some(Definition::Struct { fields }) => match fields {
            Fields::NamedFields(named_fields) => total_of_named(
                named_fields,
                definitions,
                fuel - 1,
            ),
            Fields::UnnamedFields(declarations) => total_of(declarations, definitions, fuel - 1),
            Fields::Empty => {
                assert(total(field_declarations(*fields), definitions@, (fuel - 1) as nat) == Some(
                    0nat,
                ));
                Some(0)
            },
        },
        Some(Definition::Sequence { elements }) => None,
        Some(Definition::Tuple { elements }) => total_of(elements, definitions, fuel - 1),
        None => primitive(declaration),
    }
}

/// The packed length of the type that `schema` describes, looking as deep
/// as the schema has definitions, which is as deep as definitions that do
/// not rest on themselves go.
pub fn get_packed_len(schema: &BorshSchemaContainer) -> (r: Option<usize>)
    ensures
        schema.definitions@.len() < usize::MAX ==> as_nat(r) == packed_len(
            schema.declaration@,
            schema.definitions@,
            (schema.definitions@.len() + 1) as nat,
        ),
        schema.definitions@.len() >= usize::MAX ==> r is None,
{
    if schema.definitions.len() == usize::MAX {
        return None;
    }
    get_declaration_packed_len(
        schema.declaration.as_str(),
        &schema.definitions,
        schema.definitions.len() + 1,
    )
}

} // verus!
