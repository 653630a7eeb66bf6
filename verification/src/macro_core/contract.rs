//! The contract of a handler: what its attributes say about when it
//! succeeds, when it fails and what it leaves behind.
//!
//! Four attributes make up a contract.  `succeeds_if` and `errors_if` carry a
//! condition under which the handler must succeed or fail, `post_condition`
//! carries what must hold after a success, and `has_constraint` asks for the
//! field-level constraint check to run before the call.  Every other
//! attribute belongs to the handler and stays on it.  A condition that is not
//! written, or that the parser does not read as an expression, is read as
//! `true`.  The parser's verdict comes with the attribute.

use vstd::prelude::*;
use crate::macro_core::harness::{context_view, input_views, ContextParam, Input};
use crate::macro_core::syntax::{has_attr, Attribute, Type, TypeShape};
use crate::macro_core::text::str_eq;
use crate::macro_core::text::views;

verus! {

/// Why no harness can be made for a handler.
#[derive(Clone, Copy, Debug, PartialEq, Eq, Structural)]
pub enum ExtractError {
    /// A parameter's pattern is not a single name.
    ExpectedIdentifier,
    /// The context parameter's type is not a path.
    InvalidCtxType,
    /// The context parameter's type names no context with type arguments.
    InvalidContextType,
    /// The handler has no context parameter.
    MissingContext,
    /// The handler has more than one context parameter.
    DuplicateContext,
}

impl ExtractError {
    /// The message of the error, as text.
    pub open spec fn text(self) -> Seq<char> {
        match self {
            ExtractError::ExpectedIdentifier => "Expected identifier"@,
            ExtractError::InvalidCtxType => "Invalid type for ctx"@,
            ExtractError::InvalidContextType => "invalid context type"@,
            ExtractError::MissingContext => "missing context parameter"@,
            ExtractError::DuplicateContext => "more than one context parameter"@,
        }
    }

    /// The message of the error.
    pub fn message(&self) -> (r: String)
        ensures
            r@ == self.text(),
    {
        match self {
            ExtractError::ExpectedIdentifier => String::from_str("Expected identifier"),
            ExtractError::InvalidCtxType => String::from_str("Invalid type for ctx"),
            ExtractError::InvalidContextType => String::from_str("invalid context type"),
            ExtractError::MissingContext => String::from_str("missing context parameter"),
            ExtractError::DuplicateContext => String::from_str("more than one context parameter"),
        }
    }
}

/// The clauses of a contract, each as the text of an expression.
#[derive(Debug)]
pub struct Clauses {
    /// The condition under which the handler must succeed, when one is declared.
    pub succeeds_if: Option<String>,
    /// The condition under which the handler must fail, when one is declared.
    pub errors_if: Option<String>,
    /// What must hold after a success; `true` when nothing is declared.
    pub post_condition: String,
    /// Whether the field-level constraint check runs before the call.
    pub has_constraint: bool,
}

/// The clauses of a contract as mathematics.
pub struct ClausesView {
    pub succeeds_if: Option<Seq<char>>,
    pub errors_if: Option<Seq<char>>,
    pub post_condition: Seq<char>,
    pub has_constraint: bool,
}

impl View for Clauses {
    type V = ClausesView;

    open spec fn view(&self) -> ClausesView {
        ClausesView {
            succeeds_if: match self.succeeds_if {
                Some(t) => Some(t@),
                None => None,
            },
            errors_if: match self.errors_if {
                Some(t) => Some(t@),
                None => None,
            },
            post_condition: self.post_condition@,
            has_constraint: self.has_constraint,
        }
    }
}

/// What a harness needs to know of a handler: its name and generics, the
/// inputs to manufacture, the arguments of the call, the context that carries
/// the resource set, and the clauses of the contract.
#[derive(Debug)]
pub struct ContractDescriptor {
    /// The handler's name.
    pub function: String,
    /// The handler's generic parameters, with their angle brackets.
    pub generics: String,
    /// The plain parameters: each is manufactured as an arbitrary value.
    pub inputs: Vec<Input>,
    /// What the call passes for each parameter, in parameter order.
    pub arguments: Vec<String>,
    /// The context parameter, when the handler has one.
    pub context: Option<ContextParam>,
    /// The clauses of the contract.
    pub clauses: Clauses,
}

/// A contract descriptor as mathematics.
pub struct DescriptorView {
    pub function: Seq<char>,
    pub generics: Seq<char>,
    pub inputs: Seq<(Seq<char>, Seq<char>)>,
    pub arguments: Seq<Seq<char>>,
    pub context: Option<(Seq<char>, Seq<char>)>,
    pub clauses: ClausesView,
}

impl View for ContractDescriptor {
    type V = DescriptorView;

    open spec fn view(&self) -> DescriptorView {
        DescriptorView {
            function: self.function@,
            generics: self.generics@,
            inputs: input_views(self.inputs@),
            arguments: views(self.arguments@),
            context: context_view(self.context),
            clauses: self.clauses@,
        }
    }
}

/// The input manufactured for a plain parameter that binds `ident`, is
/// written `tokens` and has the type `ty`, and what the call passes for it.
///
/// A parameter that is taken by reference is manufactured by value and
/// passed by reference.  A reference to a slice of account descriptors
/// becomes a bounded vector, because a slice of unknown length cannot be
/// manufactured.
pub open spec fn manufactured(ident: Seq<char>, tokens: Seq<char>, ty: Type) -> (
    (Seq<char>, Seq<char>),
    Seq<char>,
) {
    match ty.shape {
        TypeShape::Reference { elem, slice_of } => if slice_of matches Some(id) && id@
            == "AccountInfo"@ {
            (
                ("account_infos"@, "solana_program::vec::fast::Vec<AccountInfo>"@),
                "&account_infos"@,
            )
        } else {
            ((tokens, elem@), "&"@ + ident)
        },
        _ => ((tokens, ty.tokens@), ident),
    }
}

/// Makes the input for a plain parameter that binds `ident`, is written
/// `tokens` and has the type `ty`, and what the call passes for it.
pub fn manufacture(ident: &str, tokens: &str, ty: &Type) -> (r: (Input, String))
    ensures
        (r.0.pat@, r.0.ty@) == manufactured(ident@, tokens@, *ty).0,
        r.1@ == manufactured(ident@, tokens@, *ty).1,
{
    if let TypeShape::Reference { elem, slice_of } = &ty.shape {
        let resources = match slice_of {
            Some(id) => str_eq(id.as_str(), "AccountInfo"),
            None => false,
        };
        if resources {
            (
                Input {
                    pat: String::from_str("account_infos"),
                    ty: String::from_str("solana_program::vec::fast::Vec<AccountInfo>"),
                },
                String::from_str("&account_infos"),
            )
        } else {
            let mut argument = String::from_str("&");
            argument.append(ident);
            (Input { pat: String::from_str(tokens), ty: elem.clone() }, argument)
        }
    } else {
        (Input { pat: String::from_str(tokens), ty: ty.tokens.clone() }, String::from_str(ident))
    }
}

/// The text that stands for a condition whose source is `text`: the text
/// itself when it is an expression, `true` when it is not.
pub open spec fn expr_or_true_spec(text: Seq<char>, parses: bool) -> Seq<char> {
    if parses {
        text
    } else {
        "true"@
    }
}

/// The condition that `attr` carries: its arguments when they are an
/// expression, `true` when it has none or they are not one.
pub open spec fn condition_of(attr: Attribute) -> Seq<char> {
    match attr.args {
        Some(t) => expr_or_true_spec(t@, attr.args_parse),
        None => "true"@,
    }
}

/// The last of `attrs` whose path is the single name `name`.
pub open spec fn last_named(attrs: Seq<Attribute>, name: Seq<char>) -> Option<Attribute>
    decreases attrs.len(),
{
    if attrs.len() == 0 {
        None
    } else if attrs.last().named(name) {
        Some(attrs.last())
    } else {
        last_named(attrs.drop_last(), name)
    }
}

/// The condition of the last of `attrs` named `name`, if there is one.
pub open spec fn clause(attrs: Seq<Attribute>, name: Seq<char>) -> Option<Seq<char>> {
    match last_named(attrs, name) {
        Some(a) => Some(condition_of(a)),
        None => None,
    }
}

/// Whether `attr` is one of the four attributes that make up a contract.
pub open spec fn is_clause(attr: Attribute) -> bool {
    attr.named("succeeds_if"@) || attr.named("errors_if"@) || attr.named("post_condition"@)
        || attr.named("has_constraint"@)
}

/// The clauses that `attrs` declare.
pub open spec fn clauses_of(attrs: Seq<Attribute>) -> ClausesView {
    ClausesView {
        succeeds_if: clause(attrs, "succeeds_if"@),
        errors_if: clause(attrs, "errors_if"@),
        post_condition: match clause(attrs, "post_condition"@) {
            Some(c) => c,
            None => "true"@,
        },
        has_constraint: has_attr(attrs, "has_constraint"@),
    }
}

/// The attributes of `attrs` that are no part of a contract, in order.
pub open spec fn passed_through(attrs: Seq<Attribute>) -> Seq<Attribute> {
    attrs.filter(|a: Attribute| !is_clause(a))
}

/// The text that stands for a condition whose source is `text`, given the
/// parser's verdict on it: the text itself when it is an expression, `true`
/// when it is not.
pub fn expr_or_true(text: &str, parses: bool) -> (r: String)
    ensures
        r@ == expr_or_true_spec(text@, parses),
{
    if parses {
        String::from_str(text)
    } else {
        String::from_str("true")
    }
}

/// The condition that `attr` carries.
pub fn contract_expr(attr: &Attribute) -> (r: String)
    ensures
        r@ == condition_of(*attr),
{
    match &attr.args {
        Some(t) => expr_or_true(t.as_str(), attr.args_parse),
        None => String::from_str("true"),
    }
}

/// The four clause names are different names.
pub proof fn lemma_clause_names_differ()
    ensures
        "succeeds_if"@ != "errors_if"@,
        "succeeds_if"@ != "post_condition"@,
        "succeeds_if"@ != "has_constraint"@,
        "errors_if"@ != "post_condition"@,
        "errors_if"@ != "has_constraint"@,
        "post_condition"@ != "has_constraint"@,
{
    reveal_strlit("succeeds_if");
    reveal_strlit("errors_if");
    reveal_strlit("post_condition");
    reveal_strlit("has_constraint");
    assert("succeeds_if"@.len() == 11);
    assert("errors_if"@.len() == 9);
    assert("post_condition"@.len() == 14);
    assert("has_constraint"@.len() == 14);
    assert("post_condition"@[0] == 'p');
    assert("has_constraint"@[0] == 'h');
}

/// Takes the contract off a list of attributes: returns the clauses that the
/// list declares and leaves the other attributes in place, in their order.
/// Where a clause is declared more than once, the last declaration counts.
pub fn take_clauses(attrs: &mut Vec<Attribute>) -> (clauses: Clauses)
    ensures
        clauses@ == clauses_of(old(attrs)@),
        final(attrs)@ == passed_through(old(attrs)@),
{
    let mut taken: Vec<Attribute> = Vec::new();
    core::mem::swap(attrs, &mut taken);
    let ghost all = taken@;
    let mut succeeds_if: Option<String> = None;
    let mut errors_if: Option<String> = None;
    let mut post_condition: Option<String> = None;
    let mut has_constraint = false;
    proof {
        reveal(Seq::filter);
        assert(all.take(0) =~= Seq::<Attribute>::empty());
        assert(attrs@ =~= passed_through(all.take(0)));
    }
    for attr in it: taken
        invariant
            it.seq() == all,
            attrs@ == passed_through(all.take(it.index() as int)),
            (match succeeds_if {
                Some(t) => Some(t@),
                None => None,
            }) == clause(all.take(it.index() as int), "succeeds_if"@),
            (match errors_if {
                Some(t) => Some(t@),
                None => None,
            }) == clause(all.take(it.index() as int), "errors_if"@),
            (match post_condition {
                Some(t) => Some(t@),
                None => None,
            }) == clause(all.take(it.index() as int), "post_condition"@),
            has_constraint == has_attr(all.take(it.index() as int), "has_constraint"@),
    {
        let ghost i = it.index() as int;
        let ghost before = all.take(i);
        let ghost after = all.take(i + 1);
        proof {
            reveal(Seq::filter);
            lemma_clause_names_differ();
            assert(after.drop_last() =~= before);
            assert(after.last() == attr);
            if has_attr(before, "has_constraint"@) {
                let j = choose|j: int|
                    0 <= j < before.len() && (#[trigger] before[j]).named("has_constraint"@);
                assert(after[j].named("has_constraint"@));
            }
            if has_attr(after, "has_constraint"@) && !attr.named("has_constraint"@) {
                let j = choose|j: int|
                    0 <= j < after.len() && (#[trigger] after[j]).named("has_constraint"@);
                assert(before[j].named("has_constraint"@));
            }
        }
        if attr.is_ident("succeeds_if") {
            succeeds_if = Some(contract_expr(&attr));
        } else if attr.is_ident("errors_if") {
            errors_if = Some(contract_expr(&attr));
        } else if attr.is_ident("post_condition") {
            post_condition = Some(contract_expr(&attr));
        } else if attr.is_ident("has_constraint") {
            has_constraint = true;
            assert(after[i].named("has_constraint"@));
        } else {
            attrs.push(attr);
        }
    }
    assert(all.take(all.len() as int) =~= all);
    let post_condition = match post_condition {
        Some(c) => c,
        None => String::from_str("true"),
    };
    Clauses { succeeds_if, errors_if, post_condition, has_constraint }
}

} // verus!
