//! Declarations as the generators read them: a handler with its attributes,
//! parameters and statements, and the module that holds it.
//!
//! Each type keeps, as text, the parts that are only passed through, and as
//! structure the parts that a generator inspects.

use vstd::prelude::*;
use crate::macro_core::text::{ended, push_ended, str_eq, views};

verus! {

/// An attribute as written above a declaration, a parameter or a statement.
#[derive(Debug)]
pub struct Attribute {
    /// The attribute's path.
    pub path: String,
    /// What stands between the parentheses, when the attribute is a path
    /// followed by one parenthesised group and nothing else.
    pub args: Option<String>,
    /// Whether a parser reads the arguments as one expression.
    pub args_parse: bool,
    /// The whole attribute as written.
    pub tokens: String,
}

/// The texts of `types`, in order.
pub open spec fn type_texts(types: Seq<TypeArg>) -> Seq<Seq<char>> {
    types.map_values(|t: TypeArg| t.tokens@)
}

/// A text that is to name a type, with a parser's verdict on it.
#[derive(Debug)]
pub struct TypeArg {
    /// The text.
    pub tokens: String,
    /// Whether a parser reads the text as one type.
    pub parses: bool,
}

impl Attribute {
    /// Whether the attribute's path is the single name `name`.
    pub open spec fn named(self, name: Seq<char>) -> bool {
        self.path@ == name
    }

    /// Whether the attribute's path is the single name `name`.
    pub fn is_ident(&self, name: &str) -> (b: bool)
        ensures
            b == self.named(name@),
    {
        str_eq(self.path.as_str(), name)
    }
}

/// Whether one of `attrs` has the single name `name` as its path.
pub open spec fn has_attr(attrs: Seq<Attribute>, name: Seq<char>) -> bool {
    exists|i: int| 0 <= i < attrs.len() && (#[trigger] attrs[i]).named(name)
}

/// Whether one of `attrs` has the single name `name` as its path.
pub fn any_attr_named(attrs: &Vec<Attribute>, name: &str) -> (b: bool)
    ensures
        b == has_attr(attrs@, name@),
{
    let mut i: usize = 0;
    while i < attrs.len()
        invariant
            i <= attrs.len(),
            forall|j: int| 0 <= j < i ==> !(#[trigger] attrs@[j]).named(name@),
        decreases attrs.len() - i,
    {
        if attrs[i].is_ident(name) {
            return true;
        }
        i = i + 1;
    }
    false
}

/// The attributes of `attrs` as written, in order.
pub open spec fn attr_texts(attrs: Seq<Attribute>) -> Seq<Seq<char>> {
    attrs.map_values(|a: Attribute| a.tokens@)
}

/// The attributes of `attrs` as written, in order.
pub fn attr_lines(attrs: &Vec<Attribute>) -> (lines: Vec<String>)
    ensures
        views(lines@) == attr_texts(attrs@),
{
    let mut lines: Vec<String> = Vec::new();
    let mut i: usize = 0;
    assert(views(lines@) =~= attr_texts(attrs@).take(0));
    while i < attrs.len()
        invariant
            i <= attrs.len(),
            lines.len() == i,
            views(lines@) == attr_texts(attrs@).take(i as int),
        decreases attrs.len() - i,
    {
        let ghost before = lines@;
        lines.push(attrs[i].tokens.clone());
        assert(forall|j: int| 0 <= j < i ==> views(lines@)[j] == views(before)[j]);
        assert(views(lines@) =~= attr_texts(attrs@).take(i + 1));
        i = i + 1;
    }
    assert(attr_texts(attrs@).take(attrs.len() as int) =~= attr_texts(attrs@));
    lines
}

/// One segment of a type path.
#[derive(Debug)]
pub struct PathSegment {
    /// The segment's name.
    pub ident: String,
    /// The generic arguments between the angle brackets, when the segment has
    /// angle brackets.
    pub args: Option<String>,
}

/// The outline of a type, as far as a generator looks into it.
#[derive(Debug)]
pub enum TypeShape {
    /// A path, with its segments.
    Path(Vec<PathSegment>),
    /// A reference.  `elem` is the type referred to.  `slice_of` holds the
    /// element's name when `elem` is a slice whose element type is a single
    /// name.
    Reference { elem: String, slice_of: Option<String> },
    /// Any other type.
    Other,
}

/// A type as written, with its outline.
#[derive(Debug)]
pub struct Type {
    /// The type as written.
    pub tokens: String,
    /// The type's outline.
    pub shape: TypeShape,
}

/// The pattern of a parameter.
#[derive(Debug)]
pub enum Pat {
    /// A binding of one name.  `tokens` is the pattern as written, which may
    /// hold more than the name (`mut`, `ref`).
    Ident { ident: String, tokens: String },
    /// Any other pattern, as written.
    Other(String),
}

impl Pat {
    /// The pattern as written.
    pub open spec fn text(self) -> Seq<char> {
        match self {
            Pat::Ident { ident, tokens } => tokens@,
            Pat::Other(tokens) => tokens@,
        }
    }

    /// The pattern as written.
    pub fn to_text(&self) -> (r: String)
        ensures
            r@ == self.text(),
    {
        match self {
            Pat::Ident { ident, tokens } => tokens.clone(),
            Pat::Other(tokens) => tokens.clone(),
        }
    }
}

/// A parameter with a pattern and a type.
#[derive(Debug)]
pub struct PatType {
    /// The parameter's pattern.
    pub pat: Pat,
    /// The parameter's type.
    pub ty: Type,
}

/// A parameter of a function.
#[derive(Debug)]
pub enum FnArg {
    /// `self` in one of its short forms, as written.
    Receiver(String),
    /// A parameter with a pattern and a type.
    Typed(PatType),
}

/// Whether a function whose parameters are `inputs` takes `self`: its first
/// parameter is a receiver or binds the name `self`.
pub open spec fn takes_self(inputs: Seq<FnArg>) -> bool {
    inputs.len() > 0 && match inputs[0] {
        FnArg::Receiver(_) => true,
        FnArg::Typed(a) => match a.pat {
            Pat::Ident { ident, tokens } => ident@ == "self"@,
            Pat::Other(_) => false,
        },
    }
}

/// A function's signature.
#[derive(Debug)]
pub struct Signature {
    /// The function's name.
    pub ident: String,
    /// The generic parameters with their angle brackets; empty when there are none.
    pub generics: String,
    /// The parameters, in order.
    pub inputs: Vec<FnArg>,
    /// The whole signature as written.
    pub tokens: String,
}

impl Signature {
    /// Whether the function takes `self`.
    pub fn receiver(&self) -> (b: bool)
        ensures
            b == takes_self(self.inputs@),
    {
        if self.inputs.len() == 0 {
            return false;
        }
        match &self.inputs[0] {
            FnArg::Receiver(_) => true,
            FnArg::Typed(a) => match &a.pat {
                Pat::Ident { ident, tokens } => str_eq(ident.as_str(), "self"),
                Pat::Other(_) => false,
            },
        }
    }
}

/// The forms of expression.  All but `Verbatim` can carry attributes.
#[derive(Clone, Copy, Debug, PartialEq, Eq, Structural)]
pub enum ExprKind {
    Array,
    Assign,
    AssignOp,
    Async,
    Await,
    Binary,
    Block,
    Box,
    Break,
    Call,
    Cast,
    Closure,
    Continue,
    Field,
    ForLoop,
    Group,
    If,
    Index,
    Let,
    Lit,
    Loop,
    Macro,
    Match,
    MethodCall,
    Paren,
    Path,
    Range,
    Reference,
    Repeat,
    Return,
    Struct,
    Try,
    TryBlock,
    Tuple,
    Type,
    Unary,
    Unsafe,
    While,
    Yield,
    /// Tokens that were not taken apart.
    Verbatim,
}

/// An expression: its form, its attributes and its text.
#[derive(Debug)]
pub struct Expr {
    /// The expression's form.
    pub kind: ExprKind,
    /// The attributes written on the expression.
    pub attrs: Vec<Attribute>,
    /// The expression as written.
    pub tokens: String,
}

/// A statement of a function body.
#[derive(Debug)]
pub enum Stmt {
    /// A `let` binding, with the attributes written on it.
    Local { attrs: Vec<Attribute>, tokens: String },
    /// An item declared in the body.
    Item(String),
    /// An expression without a semicolon behind it.
    Expr(Expr),
    /// An expression with a semicolon behind it.
    Semi(Expr),
}

impl Stmt {
    /// The statement as written, with its semicolon if it has one.
    pub open spec fn text(self) -> Seq<char> {
        match self {
            Stmt::Local { attrs, tokens } => tokens@,
            Stmt::Item(tokens) => tokens@,
            Stmt::Expr(e) => e.tokens@,
            Stmt::Semi(e) => e.tokens@ + ";"@,
        }
    }

    /// The statement as written, with its semicolon if it has one.
    pub fn to_text(&self) -> (r: String)
        ensures
            r@ == self.text(),
    {
        match self {
            Stmt::Local { attrs, tokens } => tokens.clone(),
            Stmt::Item(tokens) => tokens.clone(),
            Stmt::Expr(e) => e.tokens.clone(),
            Stmt::Semi(e) => {
                let mut r = e.tokens.clone();
                r.append(";");
                r
            },
        }
    }
}

/// The statements of `stmts` as written, in order.
pub open spec fn stmt_texts(stmts: Seq<Stmt>) -> Seq<Seq<char>> {
    stmts.map_values(|s: Stmt| s.text())
}

/// The statements of `stmts` as written, in order.
pub fn stmt_lines(stmts: &Vec<Stmt>) -> (lines: Vec<String>)
    ensures
        views(lines@) == stmt_texts(stmts@),
{
    let mut lines: Vec<String> = Vec::new();
    let mut i: usize = 0;
    assert(views(lines@) =~= stmt_texts(stmts@).take(0));
    while i < stmts.len()
        invariant
            i <= stmts.len(),
            lines.len() == i,
            views(lines@) == stmt_texts(stmts@).take(i as int),
        decreases stmts.len() - i,
    {
        let ghost before = lines@;
        lines.push(stmts[i].to_text());
        assert(forall|j: int| 0 <= j < i ==> views(lines@)[j] == views(before)[j]);
        assert(views(lines@) =~= stmt_texts(stmts@).take(i + 1));
        i = i + 1;
    }
    assert(stmt_texts(stmts@).take(stmts.len() as int) =~= stmt_texts(stmts@));
    lines
}

/// A function with a body.
#[derive(Debug)]
pub struct ItemFn {
    /// The attributes written above the function.
    pub attrs: Vec<Attribute>,
    /// The visibility as written; empty when there is none.
    pub vis: String,
    /// The signature.
    pub sig: Signature,
    /// The statements of the body, in order.
    pub stmts: Vec<Stmt>,
}

impl ItemFn {
    /// The function as source: its attributes, its visibility, its signature
    /// and its body.
    pub open spec fn source(self) -> Seq<char> {
        ended(attr_texts(self.attrs@), "\n"@) + self.vis@ + " "@ + self.sig.tokens@ + " {\n"@
            + ended(stmt_texts(self.stmts@), "\n"@) + "}\n"@
    }

    /// Writes the function out as source.
    pub fn to_source(&self) -> (out: String)
        ensures
            out@ == self.source(),
    {
        let attrs = attr_lines(&self.attrs);
        let stmts = stmt_lines(&self.stmts);
        let mut out = String::new();
        push_ended(&mut out, &attrs, "\n");
        assert(out@ =~= ended(attr_texts(self.attrs@), "\n"@));
        out.append(self.vis.as_str());
        out.append(" ");
        out.append(self.sig.tokens.as_str());
        out.append(" {\n");
        push_ended(&mut out, &stmts, "\n");
        out.append("}\n");
        out
    }
}

/// An item of a module.
#[derive(Debug)]
pub enum Item {
    /// A function.
    Fn(ItemFn),
    /// Any other item, as written.
    Other(String),
}

impl Item {
    /// The item as source.
    pub open spec fn source(self) -> Seq<char> {
        match self {
            Item::Fn(f) => f.source(),
            Item::Other(tokens) => tokens@ + "\n"@,
        }
    }

    /// Writes the item out as source.
    pub fn to_source(&self) -> (out: String)
        ensures
            out@ == self.source(),
    {
        match self {
            Item::Fn(f) => f.to_source(),
            Item::Other(tokens) => {
                let mut out = tokens.clone();
                out.append("\n");
                out
            },
        }
    }
}

/// The items of `items` as source, in order.
pub open spec fn item_texts(items: Seq<Item>) -> Seq<Seq<char>> {
    items.map_values(|i: Item| i.source())
}

/// A module.
#[derive(Debug)]
pub struct ItemMod {
    /// What stands before the module's name: attributes, visibility and `mod`.
    pub head: String,
    /// The module's name.
    pub ident: String,
    /// The items between the braces, when the module has a body.
    pub content: Option<Vec<Item>>,
}

impl ItemMod {
    /// The module as source: its head and name, then its items between
    /// braces, or a semicolon when it has no body.
    pub open spec fn source(self) -> Seq<char> {
        self.head@ + " "@ + self.ident@ + match self.content {
            Some(items) => " {\n"@ + ended(item_texts(items@), Seq::empty()) + "}\n"@,
            None => ";\n"@,
        }
    }

    /// Writes the module out as source.
    pub fn to_source(&self) -> (out: String)
        ensures
            out@ == self.source(),
    {
        let mut out = self.head.clone();
        out.append(" ");
        out.append(self.ident.as_str());
        match &self.content {
            Some(items) => {
                let mut lines: Vec<String> = Vec::new();
                let mut i: usize = 0;
                assert(views(lines@) =~= item_texts(items@).take(0));
                while i < items.len()
                    invariant
                        i <= items.len(),
                        lines.len() == i,
                        views(lines@) == item_texts(items@).take(i as int),
                    decreases items.len() - i,
                {
                    let ghost before = lines@;
                    lines.push(items[i].to_source());
                    assert(forall|j: int| 0 <= j < i ==> views(lines@)[j] == views(before)[j]);
                    assert(views(lines@) =~= item_texts(items@).take(i + 1));
                    i = i + 1;
                }
                assert(item_texts(items@).take(items.len() as int) =~= item_texts(items@));
                proof {
                    reveal_strlit("");
                    assert(""@ =~= Seq::<char>::empty());
                }
                let mut body = String::from_str(" {\n");
                push_ended(&mut body, &lines, "");
                body.append("}\n");
                out.append(body.as_str());
            },
            None => {
                out.append(";\n");
            },
        }
        out
    }
}

} // verus!
