//! The oracle of arbitrary values: for a record or an enumeration, the
//! function that makes a value the checker is free to choose.
//!
//! A record gets an arbitrary value in every field, but for the fields whose
//! name begins with an underscore, which are internal.  An enumeration
//! chooses a variant by an arbitrary index and fills its fields in the same
//! way; an index beyond the last variant falls to the last variant.

use vstd::prelude::*;
use crate::macro_core::text::{
    decimal,
    ended,
    joined,
    push_ended,
    push_joined,
    push_repeated,
    repeated,
    split,
    split_spec,
    starts_with,
    to_decimal,
    trim,
    trimmed,
    views,
};

verus! {

/// The fields of a record or of a variant.
#[derive(Debug)]
pub enum Fields {
    /// Fields with names, by their names.
    Named(Vec<String>),
    /// No fields.
    Unit,
    /// Fields without names, by their number.
    Unnamed(usize),
}

/// A variant of an enumeration.
#[derive(Debug)]
pub struct Variant {
    /// The variant's name.
    pub ident: String,
    /// The variant's fields.
    pub fields: Fields,
    /// The variant as declared.
    pub tokens: String,
}

/// What a type declares.
#[derive(Debug)]
pub enum Data {
    /// A record with its fields.
    Struct(Fields),
    /// An enumeration with its variants.
    Enum(Vec<Variant>),
    /// A union.
    Union,
}

/// A generic parameter, as written.
#[derive(Debug)]
pub enum GenericParam {
    Lifetime(String),
    Type(String),
    Const(String),
}

/// The options of the derivation.
#[derive(Debug)]
pub struct Opts {
    /// The length of manufactured vectors.
    pub vector_length: u32,
    /// The types to put in the place of the type's parameter, separated by
    /// commas.
    pub t: Option<String>,
}

/// A type declaration, as far as the oracle reads it.
#[derive(Debug)]
pub struct DeriveInput {
    /// The type's name.
    pub ident: String,
    /// The type's generic parameters.
    pub generics: Vec<GenericParam>,
    /// What the type declares.
    pub data: Data,
}

/// Whether a field of this name is internal: its name begins with an
/// underscore.
pub open spec fn internal(name: Seq<char>) -> bool {
    name.len() > 0 && name[0] == '_'
}

/// The initializer of the named field `name`.
pub open spec fn named_any(name: Seq<char>) -> Seq<char> {
    name + ": kani::any()"@
}

/// The initializers of the fields of `names` that are not internal.
pub open spec fn named_inits(names: Seq<String>) -> Seq<Seq<char>> {
    names.filter(|n: String| !internal(n@)).map_values(|n: String| named_any(n@))
}

/// The expression that makes an arbitrary value of the record or variant
/// `ident` with the fields `fields`.
pub open spec fn struct_source(ident: Seq<char>, fields: Fields) -> Seq<char> {
    match fields {
        Fields::Named(names) => ident + " { "@ + ended(named_inits(names@), ", "@) + "}"@,
        Fields::Unit => ident,
        Fields::Unnamed(n) => ident + " ("@ + repeated("kani::any(), "@, n as nat) + ")"@,
    }
}

/// The arm that the index `index` selects: the variant `variant` with
/// arbitrary fields.
pub open spec fn arm_source(index: nat, variant: Variant) -> Seq<char> {
    decimal(index) + "u8 => "@ + struct_source(variant.ident@, variant.fields) + ","@
}

/// The arms of `variants`, each selected by its position.
pub open spec fn arms(variants: Seq<Variant>) -> Seq<Seq<char>> {
    Seq::new(variants.len(), |i: int| arm_source(i as nat, variants[i]))
}

/// The expression that makes an arbitrary value of an enumeration with the
/// variants `variants`: an arbitrary index selects the variant, and an index
/// beyond the last variant falls to the last variant as declared.
pub open spec fn enum_source(variants: Seq<Variant>) -> Seq<char> {
    "match kani::any::<u8>() { "@ + ended(arms(variants), " "@) + "_ => "@ + (if variants.len()
        == 0 {
        Seq::<char>::empty()
    } else {
        variants.last().tokens@
    }) + " }"@
}

/// The lifetimes among `generics`, in order.
pub open spec fn lifetimes_of(generics: Seq<GenericParam>) -> Seq<String> {
    generics.filter(|p: GenericParam| p is Lifetime).map_values(|p: GenericParam| p->Lifetime_0)
}

/// The lifetimes among `generics`, in order.
pub fn parse_generics(generics: &Vec<GenericParam>) -> (result: Vec<String>)
    ensures
        result@ == lifetimes_of(generics@),
{
    let mut result: Vec<String> = Vec::new();
    let mut i: usize = 0;
    let ghost all = generics@;
    proof {
        reveal(Seq::filter);
        assert(all.take(0) =~= Seq::<GenericParam>::empty());
        assert(result@ =~= lifetimes_of(all.take(0)));
    }
    while i < generics.len()
        invariant
            i <= generics.len(),
            all == generics@,
            result@ == lifetimes_of(all.take(i as int)),
        decreases generics.len() - i,
    {
        proof {
            reveal(Seq::filter);
            assert(all.take(i + 1).drop_last() =~= all.take(i as int));
        }
        if let GenericParam::Lifetime(lifetime) = &generics[i] {
            result.push(lifetime.clone());
        }
        assert(result@ =~= lifetimes_of(all.take(i + 1)));
        i = i + 1;
    }
    assert(all.take(generics.len() as int) =~= all);
    result
}

/// Writes the expression that makes an arbitrary value of the record or
/// variant `ident` with the fields `fields`.
pub fn create_arbitrary_struct(ident: &str, fields: &Fields) -> (out: String)
    ensures
        out@ == struct_source(ident@, *fields),
{
    match fields {
        Fields::Named(names) => {
            let mut inits: Vec<String> = Vec::new();
            let mut i: usize = 0;
            let ghost all = names@;
            proof {
                reveal(Seq::filter);
                assert(all.take(0) =~= Seq::<String>::empty());
                assert(views(inits@) =~= named_inits(all.take(0)));
            }
            while i < names.len()
                invariant
                    i <= names.len(),
                    all == names@,
                    views(inits@) == named_inits(all.take(i as int)),
                decreases names.len() - i,
            {
                proof {
                    reveal(Seq::filter);
                    assert(all.take(i + 1).drop_last() =~= all.take(i as int));
                }
                let ghost before = views(inits@);
                if !starts_with(names[i].as_str(), '_') {
                    let mut init = names[i].clone();
                    init.append(": kani::any()");
                    inits.push(init);
                    assert(views(inits@) =~= before.push(named_any(names@[i as int]@)));
                }
                assert(views(inits@) =~= named_inits(all.take(i + 1)));
                i = i + 1;
            }
            assert(all.take(names.len() as int) =~= all);
            let mut out = String::from_str(ident);
            out.append(" { ");
            push_ended(&mut out, &inits, ", ");
            out.append("}");
            out
        },
        Fields::Unit => String::from_str(ident),
        Fields::Unnamed(n) => {
            let mut out = String::from_str(ident);
            out.append(" (");
            push_repeated(&mut out, "kani::any(), ", *n);
            out.append(")");
            out
        },
    }
}

/// Writes the expression that makes an arbitrary value of an enumeration
/// with the variants `variants`, which are few enough to be numbered by a
/// byte.
pub fn create_arbitrary_enum(variants: &Vec<Variant>) -> (out: String)
    requires
        variants@.len() <= 255,
    ensures
        out@ == enum_source(variants@),
{
    let mut lines: Vec<String> = Vec::new();
    let mut index: usize = 0;
    let ghost wanted = arms(variants@);
    assert(views(lines@) =~= wanted.take(0));
    while index < variants.len()
        invariant
            index <= variants.len(),
            wanted == arms(variants@),
            lines.len() == index,
            views(lines@) == wanted.take(index as int),
        decreases variants.len() - index,
    {
        let variant = create_arbitrary_struct(
            variants[index].ident.as_str(),
            &variants[index].fields,
        );
        let mut line = to_decimal(index);
        line.append("u8 => ");
        line.append(variant.as_str());
        line.append(",");
        assert(line@ == arm_source(index as nat, variants@[index as int]));
        let ghost before = lines@;
        lines.push(line);
        assert(forall|j: int| 0 <= j < index ==> views(lines@)[j] == views(before)[j]);
        assert(views(lines@) =~= wanted.take(index + 1));
        index = index + 1;
    }
    assert(wanted.take(variants.len() as int) =~= wanted);
    let mut out = String::from_str("match kani::any::<u8>() { ");
    push_ended(&mut out, &lines, " ");
    out.append("_ => ");
    let mut last = String::new();
    if variants.len() > 0 {
        last = variants[variants.len() - 1].tokens.clone();
    }
    assert(last@ =~= if variants@.len() == 0 {
        Seq::<char>::empty()
    } else {
        variants@.last().tokens@
    });
    out.append(last.as_str());
    out.append(" }");
    out
}

/// The implementation for the type `ident` with the lifetimes `lifetimes`
/// and, if there is one, the type `generic` in the place of its parameter.
pub open spec fn impl_source(
    ident: Seq<char>,
    implementation: Seq<char>,
    lifetimes: Seq<Seq<char>>,
    generic: Option<Seq<char>>,
) -> Seq<char> {
    match generic {
        Some(g) => if lifetimes.len() == 0 {
            "impl kani::Arbitrary for "@ + ident + "<"@ + g + "> { "@ + implementation + " }\n"@
        } else {
            "impl<"@ + joined(lifetimes, ", "@) + ", "@ + g + ": kani::Arbitrary> kani::Arbitrary for "@
                + ident + "<"@ + joined(lifetimes, ", "@) + ", "@ + g + "> { "@ + implementation
                + " }\n"@
        },
        None => if lifetimes.len() == 0 {
            "impl kani::Arbitrary for "@ + ident + " { "@ + implementation + " }\n"@
        } else {
            "impl<"@ + joined(lifetimes, ", "@) + "> kani::Arbitrary for "@ + ident + "<"@ + joined(
                lifetimes,
                ", "@,
            ) + "> { "@ + implementation + " }\n"@
        },
    }
}

/// The implementations for the type `ident`: one for each type that the
/// option `t` lists, or one alone when the option is not given.
pub open spec fn impls_source(
    ident: Seq<char>,
    implementation: Seq<char>,
    lifetimes: Seq<Seq<char>>,
    t: Option<Seq<char>>,
) -> Seq<char> {
    match t {
        Some(list) => ended(
            split_spec(list, ',').map_values(
                |g: Seq<char>| impl_source(ident, implementation, lifetimes, Some(trimmed(g))),
            ),
            Seq::empty(),
        ),
        None => impl_source(ident, implementation, lifetimes, None),
    }
}

/// Writes one implementation.
pub fn impl_for(ident: &str, implementation: &str, lifetimes: &Vec<String>, generic: Option<&str>) -> (out:
    String)
    ensures
        out@ == impl_source(
            ident@,
            implementation@,
            views(lifetimes@),
            match generic {
                Some(g) => Some(g@),
                None => None,
            },
        ),
{
    let mut out = String::new();
    match generic {
        Some(g) => {
            if lifetimes.len() == 0 {
                out = String::from_str("impl kani::Arbitrary for ");
                out.append(ident);
                out.append("<");
                out.append(g);
                out.append("> { ");
            } else {
                out = String::from_str("impl<");
                push_joined(&mut out, lifetimes, ", ");
                out.append(", ");
                out.append(g);
                out.append(": kani::Arbitrary> kani::Arbitrary for ");
                out.append(ident);
                out.append("<");
                push_joined(&mut out, lifetimes, ", ");
                out.append(", ");
                out.append(g);
                out.append("> { ");
            }
        },
        None => {
            if lifetimes.len() == 0 {
                out = String::from_str("impl kani::Arbitrary for ");
                out.append(ident);
                out.append(" { ");
            } else {
                out = String::from_str("impl<");
                push_joined(&mut out, lifetimes, ", ");
                out.append("> kani::Arbitrary for ");
                out.append(ident);
                out.append("<");
                push_joined(&mut out, lifetimes, ", ");
                out.append("> { ");
            }
        },
    }
    out.append(implementation);
    out.append(" }\n");
    out
}

/// Writes the implementations for the type `ident`.
pub fn get_impl_tokenstream(
    ident: &str,
    implementation: &str,
    lifetimes: &Vec<String>,
    opts: &Opts,
) -> (out: String)
    ensures
        out@ == impls_source(
            ident@,
            implementation@,
            views(lifetimes@),
            match opts.t {
                Some(list) => Some(list@),
                None => None,
            },
        ),
{
    match &opts.t {
        Some(s) => {
            let generics = split(s.as_str(), ',');
            let mut results: Vec<String> = Vec::new();
            let mut i: usize = 0;
            let ghost wanted = split_spec(s@, ',').map_values(
                |g: Seq<char>|
                    impl_source(ident@, implementation@, views(lifetimes@), Some(trimmed(g))),
            );
            assert(views(results@) =~= wanted.take(0));
            while i < generics.len()
                invariant
                    i <= generics.len(),
                    views(generics@) == split_spec(s@, ','),
                    wanted == split_spec(s@, ',').map_values(
                        |g: Seq<char>|
                            impl_source(
                                ident@,
                                implementation@,
                                views(lifetimes@),
                                Some(trimmed(g)),
                            ),
                    ),
                    wanted.len() == generics.len(),
                    results.len() == i,
                    views(results@) == wanted.take(i as int),
                decreases generics.len() - i,
            {
                let generic = trim(generics[i].as_str());
                let text = impl_for(ident, implementation, lifetimes, Some(generic.as_str()));
                assert(views(generics@)[i as int] == generics@[i as int]@);
                assert(wanted[i as int] == impl_source(
                    ident@,
                    implementation@,
                    views(lifetimes@),
                    Some(trimmed(split_spec(s@, ',')[i as int])),
                ));
                let ghost before = results@;
                results.push(text);
                assert(forall|j: int| 0 <= j < i ==> views(results@)[j] == views(before)[j]);
                assert(views(results@) =~= wanted.take(i + 1));
                i = i + 1;
            }
            assert(wanted.take(generics.len() as int) =~= wanted);
            proof {
                reveal_strlit("");
                assert(""@ =~= Seq::<char>::empty());
            }
            let mut out = String::new();
            push_ended(&mut out, &results, "");
            assert(out@ =~= ended(wanted, Seq::empty()));
            out
        },
        None => impl_for(ident, implementation, lifetimes, None),
    }
}

/// The body of the function that makes an arbitrary value of what `data`
/// declares, a record or an enumeration, for the type `ident`.
pub open spec fn any_body(ident: Seq<char>, data: Data) -> Seq<char> {
    match data {
        Data::Struct(fields) => struct_source(ident, fields),
        Data::Enum(variants) => "use "@ + ident + "::*; "@ + enum_source(variants@),
        Data::Union => Seq::empty(),
    }
}

/// The source of the oracle for the type `input` under the options `opts`.
pub open spec fn oracle_source(input: DeriveInput, opts: Opts) -> Seq<char> {
    impls_source(
        input.ident@,
        "fn any() -> Self { "@ + any_body(input.ident@, input.data) + " }"@,
        views(lifetimes_of(input.generics@)),
        match opts.t {
            Some(list) => Some(list@),
            None => None,
        },
    )
}

/// Whether the oracle can be written for what `data` declares: a record, or
/// an enumeration whose variants a byte can number.
pub open spec fn derivable(data: Data) -> bool {
    match data {
        Data::Struct(_) => true,
        Data::Enum(variants) => variants@.len() <= 255,
        Data::Union => false,
    }
}

/// Writes the oracle for the type `input`: the function `any` that makes a
/// value the checker is free to choose.
pub fn arbitrary(input: &DeriveInput, opts: &Opts) -> (out: String)
    requires
        derivable(input.data),
    ensures
        out@ == oracle_source(*input, *opts),
{
    let inner = match &input.data {
        Data::Struct(fields) => create_arbitrary_struct(input.ident.as_str(), fields),
        Data::Enum(variants) => {
            let arb_enum = create_arbitrary_enum(variants);
            let mut inner = String::from_str("use ");
            inner.append(input.ident.as_str());
            inner.append("::*; ");
            inner.append(arb_enum.as_str());
            inner
        },
        Data::Union => String::new(),
    };
    let mut implementation = String::from_str("fn any() -> Self { ");
    implementation.append(inner.as_str());
    implementation.append(" }");
    let lifetimes = parse_generics(&input.generics);
    get_impl_tokenstream(input.ident.as_str(), implementation.as_str(), &lifetimes, opts)
}

} // verus!
