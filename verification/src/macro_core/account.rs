//! The invariant compiler: from the fields of a resource set to the three
//! checks that harnesses assume and assert.
//!
//! The pre-invariant check conjoins the invariant of every resource that
//! exists before the call, so it leaves out the newly created ones.  The
//! post-invariant check conjoins the invariant of every resource that exists
//! after the call, so it leaves out the closed ones.  The constraint check
//! conjoins the raw constraint expressions of all fields.  An empty
//! conjunction is true.

use vstd::prelude::*;
use vstd::string::StringSliceAdditionalSpecFns;
use crate::macro_core::invariants::ItemStruct;
use crate::macro_core::syntax::Attribute;
use crate::macro_core::text::{split, split_spec, trim, trimmed};
use crate::macro_core::text::{decimal, ended, joined, push_ended, push_joined, to_decimal, views};

verus! {

/// What of a field's constraints the compiler reads.
#[derive(Debug)]
pub struct ConstraintGroup {
    /// The resource is created by the call.
    pub init: bool,
    /// The resource is closed by the call.
    pub close: bool,
    /// The raw constraint expressions, as written.
    pub raw: Vec<String>,
}

/// The accessor type of a field, as far as the compiler reads it.
#[derive(Clone, Copy, Debug, PartialEq, Eq, Structural)]
pub enum Ty {
    /// An accessor that wraps a resource value; `boxed` when it is held in a box.
    Account { boxed: bool },
    /// Any other accessor.
    Other,
}

/// A plain field of a resource set.
#[derive(Debug)]
pub struct Field {
    /// The field's name.
    pub ident: String,
    /// The field's accessor type.
    pub ty: Ty,
    /// The field's constraints.
    pub constraints: ConstraintGroup,
}

/// A field of a resource set.
#[derive(Debug)]
pub enum AccountField {
    /// A field that holds one resource accessor.
    Field(Field),
    /// A field that holds a nested resource set, by its name.
    CompositeField(String),
}

/// A resource set: a record of named resource accessors.
#[derive(Debug)]
pub struct AccountsStruct {
    /// The record's name.
    pub ident: String,
    /// The record's generic parameters, with their angle brackets.
    pub generics: String,
    /// The fields, in declaration order.
    pub fields: Vec<AccountField>,
}

/// Whether `field` wraps a resource value: only such a field has an invariant.
pub open spec fn wraps_resource(field: AccountField) -> bool {
    field matches AccountField::Field(f) && f.ty is Account
}

/// Whether the pre-invariant check includes `field`.
pub open spec fn checked_before(field: AccountField) -> bool {
    field matches AccountField::Field(f) && f.ty is Account && !f.constraints.init
}

/// Whether the post-invariant check includes `field`.
pub open spec fn checked_after(field: AccountField) -> bool {
    field matches AccountField::Field(f) && f.ty is Account && !f.constraints.close
}

/// The name of `field`.
pub open spec fn name_of(field: AccountField) -> String {
    match field {
        AccountField::Field(f) => f.ident,
        AccountField::CompositeField(ident) => ident,
    }
}

/// The names of the fields that the pre-invariant check includes, in order.
pub open spec fn names_before(fields: Seq<AccountField>) -> Seq<String> {
    fields.filter(|f: AccountField| checked_before(f)).map_values(|f: AccountField| name_of(f))
}

/// The names of the fields that the post-invariant check includes, in order.
pub open spec fn names_after(fields: Seq<AccountField>) -> Seq<String> {
    fields.filter(|f: AccountField| checked_after(f)).map_values(|f: AccountField| name_of(f))
}

/// The conjunction of the invariants of the fields that `included` selects:
/// `holds[i]` says whether the invariant of the resource in field `i` holds.
pub open spec fn conjunction(
    fields: Seq<AccountField>,
    holds: Seq<bool>,
    included: spec_fn(AccountField) -> bool,
) -> bool {
    forall|i: int| 0 <= i < fields.len() && included(#[trigger] fields[i]) ==> holds[i]
}

/// The raw constraint expressions of `field`.
pub open spec fn raw_of(field: AccountField) -> Seq<String> {
    match field {
        AccountField::Field(f) => if f.ty is Account {
            f.constraints.raw@
        } else {
            Seq::empty()
        },
        AccountField::CompositeField(_) => Seq::empty(),
    }
}

/// The raw constraint expressions of all fields, in declaration order.
pub open spec fn raw_checks(fields: Seq<AccountField>) -> Seq<String>
    decreases fields.len(),
{
    if fields.len() == 0 {
        Seq::empty()
    } else {
        raw_checks(fields.drop_last()) + raw_of(fields.last())
    }
}

/// The names of the plain fields, in declaration order.
pub open spec fn plain_names(fields: Seq<AccountField>) -> Seq<String> {
    fields.filter(|f: AccountField| f is Field).map_values(|f: AccountField| name_of(f))
}

/// Whether every value of `values` is true.
pub open spec fn all_true(values: Seq<bool>) -> bool {
    forall|i: int| 0 <= i < values.len() ==> values[i]
}

/// Whether `field` is held in a box.
pub fn is_field_boxed(field: &Field) -> (b: bool)
    ensures
        b == (field.ty matches Ty::Account { boxed } && boxed),
{
    match field.ty {
        Ty::Account { boxed } => boxed,
        Ty::Other => false,
    }
}

/// The plain field in `field`, if it is one.
pub fn get_valid_field(field: &AccountField) -> (r: Option<&Field>)
    ensures
        match r {
            Some(f) => *field == AccountField::Field(*f),
            None => field is CompositeField,
        },
{
    match field {
        AccountField::Field(f) => Some(f),
        AccountField::CompositeField(_) => None,
    }
}

/// The constraints of `field`, if it wraps a resource value.
pub fn get_valid_constraints(field: &Field) -> (r: Option<&ConstraintGroup>)
    ensures
        match r {
            Some(c) => field.ty is Account && *c == field.constraints,
            None => field.ty is Other,
        },
{
    match field.ty {
        Ty::Account { boxed } => Some(&field.constraints),
        Ty::Other => None,
    }
}

/// The name and the constraints of `field`, if it is a plain field that wraps
/// a resource value.
pub fn get_valid_ident_constraints(field: &AccountField) -> (r: Option<(&String, &ConstraintGroup)>)
    ensures
        match r {
            Some((ident, c)) => wraps_resource(*field) && *ident == name_of(*field) && *c
                == field->Field_0.constraints,
            None => !wraps_resource(*field),
        },
{
    match get_valid_field(field) {
        Some(f) => match get_valid_constraints(f) {
            Some(c) => Some((&f.ident, c)),
            None => None,
        },
        None => None,
    }
}

/// The names of the fields whose invariant the pre-invariant check conjoins:
/// every field that wraps a resource value and is not newly created.
pub fn create_pre_invariants(val: &AccountsStruct) -> (pre: Vec<String>)
    ensures
        pre@ == names_before(val.fields@),
{
    let mut pre: Vec<String> = Vec::new();
    let mut i: usize = 0;
    let ghost fields = val.fields@;
    proof {
        reveal(Seq::filter);
        assert(fields.take(0) =~= Seq::<AccountField>::empty());
        assert(pre@ =~= names_before(fields.take(0)));
    }
    while i < val.fields.len()
        invariant
            i <= val.fields.len(),
            fields == val.fields@,
            pre@ == names_before(fields.take(i as int)),
        decreases val.fields.len() - i,
    {
        proof {
            reveal(Seq::filter);
            assert(fields.take(i + 1).drop_last() =~= fields.take(i as int));
        }
        if let Some((ident, constraints)) = get_valid_ident_constraints(&val.fields[i]) {
            if !constraints.init {
                pre.push(ident.clone());
            }
        }
        assert(pre@ =~= names_before(fields.take(i + 1)));
        i = i + 1;
    }
    assert(fields.take(val.fields.len() as int) =~= fields);
    pre
}

/// The names of the fields whose invariant the post-invariant check conjoins:
/// every field that wraps a resource value and is not closed.
pub fn create_post_invariants(val: &AccountsStruct) -> (post: Vec<String>)
    ensures
        post@ == names_after(val.fields@),
{
    let mut post: Vec<String> = Vec::new();
    let mut i: usize = 0;
    let ghost fields = val.fields@;
    proof {
        reveal(Seq::filter);
        assert(fields.take(0) =~= Seq::<AccountField>::empty());
        assert(post@ =~= names_after(fields.take(0)));
    }
    while i < val.fields.len()
        invariant
            i <= val.fields.len(),
            fields == val.fields@,
            post@ == names_after(fields.take(i as int)),
        decreases val.fields.len() - i,
    {
        proof {
            reveal(Seq::filter);
            assert(fields.take(i + 1).drop_last() =~= fields.take(i as int));
        }
        if let Some((ident, constraints)) = get_valid_ident_constraints(&val.fields[i]) {
            if !constraints.close {
                post.push(ident.clone());
            }
        }
        assert(post@ =~= names_after(fields.take(i + 1)));
        i = i + 1;
    }
    assert(fields.take(val.fields.len() as int) =~= fields);
    post
}

/// The field-level constraint check: the names that its body binds and the
/// expressions that it conjoins.
#[derive(Debug)]
pub struct ConstraintCheck {
    /// The names of the plain fields, each bound to its field in the body.
    pub fields: Vec<String>,
    /// The raw constraint expressions, in declaration order.
    pub checks: Vec<String>,
}

/// The field-level constraint check of `val`: it binds every plain field and
/// conjoins the raw constraint expressions of the fields that wrap a resource
/// value.
pub fn create_constraints_checks(val: &AccountsStruct) -> (check: ConstraintCheck)
    ensures
        check.fields@ == plain_names(val.fields@),
        check.checks@ == raw_checks(val.fields@),
{
    let mut checks: Vec<String> = Vec::new();
    let mut names: Vec<String> = Vec::new();
    let mut i: usize = 0;
    let ghost fields = val.fields@;
    proof {
        reveal(Seq::filter);
        assert(fields.take(0) =~= Seq::<AccountField>::empty());
        assert(names@ =~= plain_names(fields.take(0)));
    }
    while i < val.fields.len()
        invariant
            i <= val.fields.len(),
            fields == val.fields@,
            names@ == plain_names(fields.take(i as int)),
            checks@ == raw_checks(fields.take(i as int)),
        decreases val.fields.len() - i,
    {
        proof {
            reveal(Seq::filter);
            assert(fields.take(i + 1).drop_last() =~= fields.take(i as int));
        }
        let ghost before = checks@;
        if let Some(f) = get_valid_field(&val.fields[i]) {
            names.push(f.ident.clone());
            if let Some(constraints) = get_valid_constraints(f) {
                let mut j: usize = 0;
                while j < constraints.raw.len()
                    invariant
                        j <= constraints.raw.len(),
                        checks@ == before + constraints.raw@.take(j as int),
                    decreases constraints.raw.len() - j,
                {
                    checks.push(constraints.raw[j].clone());
                    assert(constraints.raw@.take(j as int).push(constraints.raw@[j as int])
                        =~= constraints.raw@.take(j + 1));
                    j = j + 1;
                }
                assert(constraints.raw@.take(constraints.raw.len() as int) =~= constraints.raw@);
            } else {
                assert(checks@ =~= before + Seq::<String>::empty());
            }
        } else {
            assert(checks@ =~= before + Seq::<String>::empty());
        }
        assert(names@ =~= plain_names(fields.take(i + 1)));
        i = i + 1;
    }
    assert(fields.take(val.fields.len() as int) =~= fields);
    ConstraintCheck { fields: names, checks }
}

impl AccountsStruct {
    /// The pre-invariant check on a state of the resources: `holds[i]` says
    /// whether the invariant of the resource in field `i` holds.
    pub fn __pre_invariants(&self, holds: &Vec<bool>) -> (b: bool)
        requires
            holds.len() == self.fields.len(),
        ensures
            b == conjunction(self.fields@, holds@, |f: AccountField| checked_before(f)),
    {
        let mut i: usize = 0;
        while i < self.fields.len()
            invariant
                i <= self.fields.len(),
                holds.len() == self.fields.len(),
                forall|j: int| 0 <= j < i && checked_before(#[trigger] self.fields@[j]) ==> holds@[j],
            decreases self.fields.len() - i,
        {
            if let Some((_, constraints)) = get_valid_ident_constraints(&self.fields[i]) {
                if !constraints.init && !holds[i] {
                    return false;
                }
            }
            i = i + 1;
        }
        true
    }

    /// The post-invariant check on a state of the resources: `holds[i]` says
    /// whether the invariant of the resource in field `i` holds.
    pub fn __post_invariants(&self, holds: &Vec<bool>) -> (b: bool)
        requires
            holds.len() == self.fields.len(),
        ensures
            b == conjunction(self.fields@, holds@, |f: AccountField| checked_after(f)),
    {
        let mut i: usize = 0;
        while i < self.fields.len()
            invariant
                i <= self.fields.len(),
                holds.len() == self.fields.len(),
                forall|j: int| 0 <= j < i && checked_after(#[trigger] self.fields@[j]) ==> holds@[j],
            decreases self.fields.len() - i,
        {
            if let Some((_, constraints)) = get_valid_ident_constraints(&self.fields[i]) {
                if !constraints.close && !holds[i] {
                    return false;
                }
            }
            i = i + 1;
        }
        true
    }
}

impl ConstraintCheck {
    /// The constraint check on the values of its expressions: `values[i]` is
    /// what expression `i` evaluates to.
    pub fn __check_constraints(&self, values: &Vec<bool>) -> (b: bool)
        requires
            values.len() == self.checks.len(),
        ensures
            b == all_true(values@),
    {
        let mut i: usize = 0;
        while i < values.len()
            invariant
                i <= values.len(),
                forall|j: int| 0 <= j < i ==> values@[j],
            decreases values.len() - i,
        {
            if !values[i] {
                return false;
            }
            i = i + 1;
        }
        true
    }
}

/// The term that checks the invariant of the resource in field `name`.
pub open spec fn invariant_term(name: Seq<char>) -> Seq<char> {
    "self."@ + name + ".account._check_invariant()"@
}

/// The body of a conjunction of `terms`: `true` when there are none.
pub open spec fn conjunction_body(terms: Seq<Seq<char>>) -> Seq<char> {
    if terms.len() == 0 {
        "true"@
    } else {
        joined(terms, " && "@)
    }
}

/// The source of an invariant check named `method` on the record `ident`,
/// conjoining the invariants of the fields `names`.
pub open spec fn invariants_source(
    ident: Seq<char>,
    generics: Seq<char>,
    method: Seq<char>,
    names: Seq<Seq<char>>,
) -> Seq<char> {
    "impl "@ + generics + " "@ + ident + " "@ + generics + " { pub fn "@ + method
        + "(&self) -> bool { "@ + conjunction_body(names.map_values(|n: Seq<char>| invariant_term(n)))
        + " } }\n"@
}

/// Writes out an invariant check named `method` on the record of `val`,
/// conjoining the invariants of the fields `names`.
pub fn invariants_impl(val: &AccountsStruct, method: &str, names: &Vec<String>) -> (out: String)
    ensures
        out@ == invariants_source(val.ident@, val.generics@, method@, views(names@)),
{
    let mut terms: Vec<String> = Vec::new();
    let mut i: usize = 0;
    let ghost wanted = views(names@).map_values(|n: Seq<char>| invariant_term(n));
    while i < names.len()
        invariant
            i <= names.len(),
            wanted == views(names@).map_values(|n: Seq<char>| invariant_term(n)),
            wanted.len() == names.len(),
            terms.len() == i,
            views(terms@) == wanted.take(i as int),
        decreases names.len() - i,
    {
        let mut term = String::from_str("self.");
        term.append(names[i].as_str());
        term.append(".account._check_invariant()");
        assert(term@ == invariant_term(names@[i as int]@));
        assert(wanted[i as int] == invariant_term(views(names@)[i as int]));
        let ghost before = terms@;
        terms.push(term);
        assert(forall|j: int| 0 <= j < i ==> views(terms@)[j] == views(before)[j]);
        assert(views(terms@) =~= wanted.take(i + 1));
        i = i + 1;
    }
    assert(wanted.take(names.len() as int) =~= wanted);
    let mut out = String::from_str("impl ");
    out.append(val.generics.as_str());
    out.append(" ");
    out.append(val.ident.as_str());
    out.append(" ");
    out.append(val.generics.as_str());
    out.append(" { pub fn ");
    out.append(method);
    out.append("(&self) -> bool { ");
    if terms.len() == 0 {
        out.append("true");
    } else {
        push_joined(&mut out, &terms, " && ");
    }
    out.append(" } }\n");
    out
}

/// The pre-invariant check does not look at newly created resources: two
/// states that agree on every other resource get the same answer.
pub proof fn lemma_pre_invariants_skip_init(
    fields: Seq<AccountField>,
    holds: Seq<bool>,
    other: Seq<bool>,
)
    requires
        holds.len() == fields.len(),
        other.len() == fields.len(),
        forall|i: int|
            0 <= i < fields.len() && !(fields[i] matches AccountField::Field(f)
                && f.constraints.init) ==> holds[i] == other[i],
    ensures
        conjunction(fields, holds, |f: AccountField| checked_before(f)) == conjunction(
            fields,
            other,
            |f: AccountField| checked_before(f),
        ),
{
}

/// The post-invariant check does not look at closed resources: two states
/// that agree on every other resource get the same answer.
pub proof fn lemma_post_invariants_skip_closed(
    fields: Seq<AccountField>,
    holds: Seq<bool>,
    other: Seq<bool>,
)
    requires
        holds.len() == fields.len(),
        other.len() == fields.len(),
        forall|i: int|
            0 <= i < fields.len() && !(fields[i] matches AccountField::Field(f)
                && f.constraints.close) ==> holds[i] == other[i],
    ensures
        conjunction(fields, holds, |f: AccountField| checked_after(f)) == conjunction(
            fields,
            other,
            |f: AccountField| checked_after(f),
        ),
{
}

/// The pre-invariant check holds exactly when the invariant of every
/// resource holds that exists before the call: a field that wraps a resource
/// value and is not newly created.
pub proof fn lemma_pre_invariants_cover_existing(fields: Seq<AccountField>, holds: Seq<bool>)
    requires
        holds.len() == fields.len(),
    ensures
        conjunction(fields, holds, |f: AccountField| checked_before(f)) <==> forall|i: int|
            0 <= i < fields.len() && wraps_resource(#[trigger] fields[i])
                && !fields[i]->Field_0.constraints.init ==> holds[i],
{
}

/// The post-invariant check holds exactly when the invariant of every
/// resource holds that exists after the call: a field that wraps a resource
/// value and is not closed.
pub proof fn lemma_post_invariants_cover_remaining(fields: Seq<AccountField>, holds: Seq<bool>)
    requires
        holds.len() == fields.len(),
    ensures
        conjunction(fields, holds, |f: AccountField| checked_after(f)) <==> forall|i: int|
            0 <= i < fields.len() && wraps_resource(#[trigger] fields[i])
                && !fields[i]->Field_0.constraints.close ==> holds[i],
{
}

/// A check over no included field is true, whatever the state.
pub proof fn lemma_empty_conjunction(
    fields: Seq<AccountField>,
    holds: Seq<bool>,
    included: spec_fn(AccountField) -> bool,
)
    requires
        forall|i: int| 0 <= i < fields.len() ==> !included(fields[i]),
    ensures
        conjunction(fields, holds, included),
{
}

/// A plain parameter of the handler, which the constraint check takes too.
#[derive(Debug)]
pub struct InstructionArg {
    /// The parameter's name.
    pub name: String,
    /// The parameter's type.
    pub ty: String,
}

/// The name and type of each parameter.
pub open spec fn arg_views(args: Seq<InstructionArg>) -> Seq<(Seq<char>, Seq<char>)> {
    args.map_values(|a: InstructionArg| (a.name@, a.ty@))
}

/// The name of `field` and whether it is held in a box.
pub open spec fn any_view(field: AccountField) -> (Seq<char>, bool) {
    match field {
        AccountField::Field(f) => (f.ident@, f.ty matches Ty::Account { boxed } && boxed),
        AccountField::CompositeField(ident) => (ident@, false),
    }
}

/// The initializer that gives a field an arbitrary value.
pub open spec fn field_any(field: (Seq<char>, bool)) -> Seq<char> {
    if field.1 {
        field.0 + ": Box::new(kani::any())"@
    } else {
        field.0 + ": kani::any()"@
    }
}

/// The source of the function that manufactures an arbitrary resource set.
pub open spec fn any_source(
    ident: Seq<char>,
    generics: Seq<char>,
    fields: Seq<(Seq<char>, bool)>,
) -> Seq<char> {
    "impl "@ + generics + " kani::Arbitrary for "@ + ident + " "@ + generics
        + " { fn any() -> Self { Self { "@ + joined(
        fields.map_values(|f: (Seq<char>, bool)| field_any(f)),
        ", "@,
    ) + " } } }\n"@
}

/// A parameter in a parameter list, behind another parameter.
pub open spec fn arg_text(arg: (Seq<char>, Seq<char>)) -> Seq<char> {
    ", "@ + arg.0 + ": "@ + arg.1
}

/// The statement that binds the field `name` in the body of the constraint
/// check.
pub open spec fn binding(name: Seq<char>) -> Seq<char> {
    "let "@ + name + " = &self."@ + name + ";"@
}

/// The source of the constraint check: `true` when no field has a raw
/// constraint, else the conjunction of the raw constraints, with every plain
/// field bound to its name.
pub open spec fn constraints_source(
    ident: Seq<char>,
    generics: Seq<char>,
    args: Seq<(Seq<char>, Seq<char>)>,
    fields: Seq<Seq<char>>,
    checks: Seq<Seq<char>>,
) -> Seq<char> {
    (if checks.len() == 0 {
        Seq::<char>::empty()
    } else {
        "#[allow(unused_variables)]\n"@
    }) + "impl "@ + generics + " "@ + ident + " "@ + generics
        + " { pub fn __check_constraints(&self"@ + ended(
        args.map_values(|a: (Seq<char>, Seq<char>)| arg_text(a)),
        Seq::empty(),
    ) + ") -> bool { "@ + (if checks.len() == 0 {
        "true"@
    } else {
        ended(fields.map_values(|n: Seq<char>| binding(n)), " "@) + joined(checks, " && "@)
    }) + " } }\n"@
}

/// Everything that is derived for a resource set: the function that
/// manufactures an arbitrary one, the pre-invariant check, the
/// post-invariant check and the constraint check.
pub open spec fn accounts_source(val: AccountsStruct, args: Seq<(Seq<char>, Seq<char>)>) -> Seq<
    char,
> {
    any_source(val.ident@, val.generics@, val.fields@.map_values(|f: AccountField| any_view(f)))
        + invariants_source(
        val.ident@,
        val.generics@,
        "__pre_invariants"@,
        views(names_before(val.fields@)),
    ) + invariants_source(
        val.ident@,
        val.generics@,
        "__post_invariants"@,
        views(names_after(val.fields@)),
    ) + constraints_source(
        val.ident@,
        val.generics@,
        args,
        views(plain_names(val.fields@)),
        views(raw_checks(val.fields@)),
    )
}

/// Writes the function that manufactures an arbitrary resource set.
pub fn any_impl(val: &AccountsStruct) -> (out: String)
    ensures
        out@ == any_source(
            val.ident@,
            val.generics@,
            val.fields@.map_values(|f: AccountField| any_view(f)),
        ),
{
    let mut fields: Vec<String> = Vec::new();
    let mut i: usize = 0;
    let ghost wanted = val.fields@.map_values(|f: AccountField| any_view(f)).map_values(
        |f: (Seq<char>, bool)| field_any(f),
    );
    assert(views(fields@) =~= wanted.take(0));
    while i < val.fields.len()
        invariant
            i <= val.fields.len(),
            wanted == val.fields@.map_values(|f: AccountField| any_view(f)).map_values(
                |f: (Seq<char>, bool)| field_any(f),
            ),
            wanted.len() == val.fields.len(),
            fields.len() == i,
            views(fields@) == wanted.take(i as int),
        decreases val.fields.len() - i,
    {
        let (boxed, ident) = match &val.fields[i] {
            AccountField::Field(field) => (is_field_boxed(field), &field.ident),
            AccountField::CompositeField(ident) => (false, ident),
        };
        let mut text = ident.clone();
        if boxed {
            text.append(": Box::new(kani::any())");
        } else {
            text.append(": kani::any()");
        }
        assert(text@ == field_any(any_view(val.fields@[i as int])));
        assert(wanted[i as int] == field_any(any_view(val.fields@[i as int])));
        let ghost before = fields@;
        fields.push(text);
        assert(forall|j: int| 0 <= j < i ==> views(fields@)[j] == views(before)[j]);
        assert(views(fields@) =~= wanted.take(i + 1));
        i = i + 1;
    }
    assert(wanted.take(val.fields.len() as int) =~= wanted);
    let mut out = String::from_str("impl ");
    out.append(val.generics.as_str());
    out.append(" kani::Arbitrary for ");
    out.append(val.ident.as_str());
    out.append(" ");
    out.append(val.generics.as_str());
    out.append(" { fn any() -> Self { Self { ");
    push_joined(&mut out, &fields, ", ");
    out.append(" } } }\n");
    out
}

/// Writes the constraint check `check` of the resource set `val`, which
/// takes the parameters `args`.
pub fn constraints_impl(val: &AccountsStruct, args: &Vec<InstructionArg>, check: &ConstraintCheck) -> (out:
    String)
    ensures
        out@ == constraints_source(
            val.ident@,
            val.generics@,
            arg_views(args@),
            views(check.fields@),
            views(check.checks@),
        ),
{
    let mut params: Vec<String> = Vec::new();
    let mut i: usize = 0;
    let ghost want_params = arg_views(args@).map_values(|a: (Seq<char>, Seq<char>)| arg_text(a));
    assert(views(params@) =~= want_params.take(0));
    while i < args.len()
        invariant
            i <= args.len(),
            want_params == arg_views(args@).map_values(|a: (Seq<char>, Seq<char>)| arg_text(a)),
            want_params.len() == args.len(),
            params.len() == i,
            views(params@) == want_params.take(i as int),
        decreases args.len() - i,
    {
        let mut text = String::from_str(", ");
        text.append(args[i].name.as_str());
        text.append(": ");
        text.append(args[i].ty.as_str());
        assert(text@ == arg_text(arg_views(args@)[i as int]));
        assert(want_params[i as int] == arg_text(arg_views(args@)[i as int]));
        let ghost before = params@;
        params.push(text);
        assert(forall|j: int| 0 <= j < i ==> views(params@)[j] == views(before)[j]);
        assert(views(params@) =~= want_params.take(i + 1));
        i = i + 1;
    }
    assert(want_params.take(args.len() as int) =~= want_params);
    let mut bindings: Vec<String> = Vec::new();
    let mut k: usize = 0;
    let ghost want_bindings = views(check.fields@).map_values(|n: Seq<char>| binding(n));
    assert(views(bindings@) =~= want_bindings.take(0));
    while k < check.fields.len()
        invariant
            k <= check.fields.len(),
            want_bindings == views(check.fields@).map_values(|n: Seq<char>| binding(n)),
            want_bindings.len() == check.fields.len(),
            bindings.len() == k,
            views(bindings@) == want_bindings.take(k as int),
        decreases check.fields.len() - k,
    {
        let mut text = String::from_str("let ");
        text.append(check.fields[k].as_str());
        text.append(" = &self.");
        text.append(check.fields[k].as_str());
        text.append(";");
        assert(text@ == binding(views(check.fields@)[k as int]));
        assert(want_bindings[k as int] == binding(views(check.fields@)[k as int]));
        let ghost before = bindings@;
        bindings.push(text);
        assert(forall|j: int| 0 <= j < k ==> views(bindings@)[j] == views(before)[j]);
        assert(views(bindings@) =~= want_bindings.take(k + 1));
        k = k + 1;
    }
    assert(want_bindings.take(check.fields.len() as int) =~= want_bindings);
    proof {
        reveal_strlit("");
        assert(""@ =~= Seq::<char>::empty());
    }
    let mut out = if check.checks.len() == 0 {
        String::new()
    } else {
        String::from_str("#[allow(unused_variables)]\n")
    };
    out.append("impl ");
    out.append(val.generics.as_str());
    out.append(" ");
    out.append(val.ident.as_str());
    out.append(" ");
    out.append(val.generics.as_str());
    out.append(" { pub fn __check_constraints(&self");
    push_ended(&mut out, &params, "");
    out.append(") -> bool { ");
    let mut body = String::new();
    if check.checks.len() == 0 {
        body.append("true");
        assert(body@ =~= "true"@);
    } else {
        push_ended(&mut body, &bindings, " ");
        assert(body@ =~= ended(want_bindings, " "@));
        push_joined(&mut body, &check.checks, " && ");
    }
    out.append(body.as_str());
    out.append(" } }\n");
    out
}

/// Why the parameters of a handler cannot be read off an attribute.
#[derive(Clone, Copy, Debug, PartialEq, Eq, Structural)]
pub enum ArgsError {
    /// The attribute has no group of arguments.
    ExpectedGroup,
    /// An argument is not of the form `name: type`.
    ExpectedAscription,
    /// What stands behind the colon of an argument is no type.
    ExpectedType,
}

/// The pieces of an argument list: the list cut at every comma, each piece
/// without the white space at its ends.
pub open spec fn pieces_of(list: Seq<char>) -> Seq<Seq<char>> {
    split_spec(list, ',').map_values(|p: Seq<char>| trimmed(p))
}

/// What the attribute `attr` lists, if it is named `instruction`: nothing
/// when it has no group of arguments, else the pieces of its arguments.
pub open spec fn listed(attr: Attribute) -> Option<Seq<Seq<char>>> {
    match attr.args {
        Some(list) => Some(pieces_of(list@)),
        None => None,
    }
}

/// What each attribute of `attrs` that is named `instruction` lists, in
/// order.
pub open spec fn instruction_lists_spec(attrs: Seq<Attribute>) -> Seq<Option<Seq<Seq<char>>>> {
    attrs.filter(|a: Attribute| a.named("instruction"@)).map_values(|a: Attribute| listed(a))
}

/// The texts of a list of pieces, if there is a list.
pub open spec fn list_view(list: Option<Vec<String>>) -> Option<Seq<Seq<char>>> {
    match list {
        Some(pieces) => Some(views(pieces@)),
        None => None,
    }
}

/// Cuts an argument list into its pieces.
pub fn pieces(list: &str) -> (r: Vec<String>)
    ensures
        views(r@) == pieces_of(list@),
{
    let cut = split(list, ',');
    let mut r: Vec<String> = Vec::new();
    let mut i: usize = 0;
    let ghost wanted = pieces_of(list@);
    assert(views(r@) =~= wanted.take(0));
    while i < cut.len()
        invariant
            i <= cut.len(),
            views(cut@) == split_spec(list@, ','),
            wanted == pieces_of(list@),
            wanted.len() == cut.len(),
            r.len() == i,
            views(r@) == wanted.take(i as int),
        decreases cut.len() - i,
    {
        let piece = trim(cut[i].as_str());
        assert(views(cut@)[i as int] == cut@[i as int]@);
        assert(wanted[i as int] == trimmed(split_spec(list@, ',')[i as int]));
        let ghost before = r@;
        r.push(piece);
        assert(forall|j: int| 0 <= j < i ==> views(r@)[j] == views(before)[j]);
        assert(views(r@) =~= wanted.take(i + 1));
        i = i + 1;
    }
    assert(wanted.take(cut.len() as int) =~= wanted);
    r
}

/// Lists, for each attribute of `attrs` that is named `instruction`, the
/// pieces of its arguments: each piece is to declare one plain parameter of
/// the handler as `name: type`.
pub fn instruction_lists(attrs: &Vec<Attribute>) -> (lists: Vec<Option<Vec<String>>>)
    ensures
        lists@.map_values(|l: Option<Vec<String>>| list_view(l)) == instruction_lists_spec(attrs@),
{
    let mut lists: Vec<Option<Vec<String>>> = Vec::new();
    let mut i: usize = 0;
    let ghost all = attrs@;
    proof {
        reveal(Seq::filter);
        assert(all.take(0) =~= Seq::<Attribute>::empty());
        assert(lists@.map_values(|l: Option<Vec<String>>| list_view(l))
            =~= instruction_lists_spec(all.take(0)));
    }
    while i < attrs.len()
        invariant
            i <= attrs.len(),
            all == attrs@,
            lists@.map_values(|l: Option<Vec<String>>| list_view(l)) == instruction_lists_spec(
                all.take(i as int),
            ),
        decreases attrs.len() - i,
    {
        proof {
            reveal(Seq::filter);
            assert(all.take(i + 1).drop_last() =~= all.take(i as int));
        }
        let ghost before = lists@.map_values(|l: Option<Vec<String>>| list_view(l));
        if attrs[i].is_ident("instruction") {
            let list = match &attrs[i].args {
                Some(list) => Some(pieces(list.as_str())),
                None => None,
            };
            assert(list_view(list) == listed(attrs@[i as int]));
            lists.push(list);
            assert(lists@.map_values(|l: Option<Vec<String>>| list_view(l)) =~= before.push(
                listed(attrs@[i as int]),
            ));
        }
        assert(lists@.map_values(|l: Option<Vec<String>>| list_view(l))
            =~= instruction_lists_spec(all.take(i + 1)));
        i = i + 1;
    }
    assert(all.take(attrs.len() as int) =~= all);
    lists
}

/// What a parser made of one piece of an argument list.
#[derive(Debug)]
pub struct ParsedArg {
    /// The two sides of the piece read as `expression: type`, each as text;
    /// nothing when the piece does not read so.
    pub ascription: Option<(String, String)>,
    /// Whether what stands behind the colon reads as a type by itself.
    pub typed: bool,
}

/// The parameter that a piece declares, given what the parser made of it.
pub open spec fn arg_from_spec(parsed: ParsedArg) -> Result<(Seq<char>, Seq<char>), ArgsError> {
    match parsed.ascription {
        None => Err(ArgsError::ExpectedAscription),
        Some(sides) => if parsed.typed {
            Ok((sides.0@, sides.1@))
        } else {
            Err(ArgsError::ExpectedType)
        },
    }
}

/// The parameters that the pieces `list` declare, behind those of `acc`; the
/// first piece that declares none decides the error.
pub open spec fn args_of_list(
    acc: Result<Seq<(Seq<char>, Seq<char>)>, ArgsError>,
    list: Seq<ParsedArg>,
) -> Result<Seq<(Seq<char>, Seq<char>)>, ArgsError>
    decreases list.len(),
{
    if list.len() == 0 {
        acc
    } else {
        match args_of_list(acc, list.drop_last()) {
            Err(e) => Err(e),
            Ok(found) => match arg_from_spec(list.last()) {
                Err(e) => Err(e),
                Ok(arg) => Ok(found.push(arg)),
            },
        }
    }
}

/// The parameters found after one more attribute named `instruction`, of
/// which `group` holds the parsed pieces, or nothing if the attribute has no
/// group of arguments.
pub open spec fn args_after(
    acc: Result<Seq<(Seq<char>, Seq<char>)>, ArgsError>,
    group: Option<Vec<ParsedArg>>,
) -> Result<Seq<(Seq<char>, Seq<char>)>, ArgsError> {
    if acc is Err {
        acc
    } else {
        match group {
            None => Err(ArgsError::ExpectedGroup),
            Some(list) => args_of_list(acc, list@),
        }
    }
}

/// The plain parameters that the attributes named `instruction` declare, in
/// order, given what the parser made of each of their pieces; or the first
/// error met.
pub open spec fn instruction_args_spec(groups: Seq<Option<Vec<ParsedArg>>>) -> Result<
    Seq<(Seq<char>, Seq<char>)>,
    ArgsError,
>
    decreases groups.len(),
{
    if groups.len() == 0 {
        Ok(Seq::empty())
    } else {
        args_after(instruction_args_spec(groups.drop_last()), groups.last())
    }
}

/// The parameter that a piece declares, given what the parser made of it.
pub fn arg_from(parsed: &ParsedArg) -> (r: Result<InstructionArg, ArgsError>)
    ensures
        match r {
            Ok(arg) => arg_from_spec(*parsed) == Ok::<(Seq<char>, Seq<char>), ArgsError>(
                (arg.name@, arg.ty@),
            ),
            Err(e) => arg_from_spec(*parsed) == Err::<(Seq<char>, Seq<char>), ArgsError>(e),
        },
{
    match &parsed.ascription {
        None => Err(ArgsError::ExpectedAscription),
        Some(sides) => if parsed.typed {
            Ok(InstructionArg { name: sides.0.clone(), ty: sides.1.clone() })
        } else {
            Err(ArgsError::ExpectedType)
        },
    }
}

/// An error among the first `n` pieces is the error of the whole list.
pub proof fn lemma_list_prefix_error(
    acc: Result<Seq<(Seq<char>, Seq<char>)>, ArgsError>,
    list: Seq<ParsedArg>,
    n: int,
)
    requires
        0 <= n <= list.len(),
        args_of_list(acc, list.take(n)) is Err,
    ensures
        args_of_list(acc, list) == args_of_list(acc, list.take(n)),
    decreases list.len() - n,
{
    if n < list.len() {
        assert(list.take(n + 1).drop_last() =~= list.take(n));
        lemma_list_prefix_error(acc, list, n + 1);
    } else {
        assert(list.take(n) =~= list);
    }
}

/// An error among the first `n` attributes is the error of all of them.
pub proof fn lemma_groups_prefix_error(groups: Seq<Option<Vec<ParsedArg>>>, n: int)
    requires
        0 <= n <= groups.len(),
        instruction_args_spec(groups.take(n)) is Err,
    ensures
        instruction_args_spec(groups) == instruction_args_spec(groups.take(n)),
    decreases groups.len() - n,
{
    if n < groups.len() {
        assert(groups.take(n + 1).drop_last() =~= groups.take(n));
        lemma_groups_prefix_error(groups, n + 1);
    } else {
        assert(groups.take(n) =~= groups);
    }
}

/// Collects the plain parameters of the handler from what the parser made of
/// the pieces that `instruction_lists` listed: one entry of `groups` for each
/// attribute named `instruction`, in order.
pub fn instruction_args(groups: &Vec<Option<Vec<ParsedArg>>>) -> (r: Result<
    Vec<InstructionArg>,
    ArgsError,
>)
    ensures
        match r {
            Ok(args) => instruction_args_spec(groups@) == Ok::<
                Seq<(Seq<char>, Seq<char>)>,
                ArgsError,
            >(arg_views(args@)),
            Err(e) => instruction_args_spec(groups@) == Err::<
                Seq<(Seq<char>, Seq<char>)>,
                ArgsError,
            >(e),
        },
{
    let mut args: Vec<InstructionArg> = Vec::new();
    let mut i: usize = 0;
    assert(groups@.take(0) =~= Seq::<Option<Vec<ParsedArg>>>::empty());
    assert(arg_views(args@) =~= Seq::empty());
    while i < groups.len()
        invariant
            i <= groups.len(),
            instruction_args_spec(groups@.take(i as int)) == Ok::<
                Seq<(Seq<char>, Seq<char>)>,
                ArgsError,
            >(arg_views(args@)),
        decreases groups.len() - i,
    {
        proof {
            assert(groups@.take(i + 1).drop_last() =~= groups@.take(i as int));
            assert(groups@.take(i + 1).last() == groups@[i as int]);
            if instruction_args_spec(groups@.take(i + 1)) is Err {
                lemma_groups_prefix_error(groups@, i + 1);
            }
        }
        let list = match &groups[i] {
            None => {
                return Err(ArgsError::ExpectedGroup);
            },
            Some(list) => list,
        };
        let ghost acc = Ok::<Seq<(Seq<char>, Seq<char>)>, ArgsError>(arg_views(args@));
        let ghost all = list@;
        let mut k: usize = 0;
        assert(all.take(0) =~= Seq::<ParsedArg>::empty());
        while k < list.len()
            invariant
                k <= list.len(),
                all == list@,
                i < groups.len(),
                groups@[i as int] == Some(*list),
                instruction_args_spec(groups@.take(i as int)) == acc,
                instruction_args_spec(groups@.take(i + 1)) is Err ==> instruction_args_spec(
                    groups@,
                ) == instruction_args_spec(groups@.take(i + 1)),
                instruction_args_spec(groups@.take(i + 1)) == args_of_list(acc, all),
                args_of_list(acc, all.take(k as int)) == Ok::<
                    Seq<(Seq<char>, Seq<char>)>,
                    ArgsError,
                >(arg_views(args@)),
            decreases list.len() - k,
        {
            proof {
                assert(all.take(k + 1).drop_last() =~= all.take(k as int));
                assert(all.take(k + 1).last() == list@[k as int]);
                if args_of_list(acc, all.take(k + 1)) is Err {
                    lemma_list_prefix_error(acc, all, k + 1);
                }
            }
            let ghost before = arg_views(args@);
            match arg_from(&list[k]) {
                Ok(arg) => {
                    args.push(arg);
                    assert(arg_views(args@) =~= before.push((arg.name@, arg.ty@)));
                },
                Err(e) => {
                    return Err(e);
                },
            }
            k = k + 1;
        }
        assert(all.take(list.len() as int) =~= all);
        i = i + 1;
    }
    assert(groups@.take(groups.len() as int) =~= groups@);
    Ok(args)
}

/// Writes everything that is derived for a resource set `val`, given what
/// the parser made of the pieces that its attributes named `instruction`
/// list; they declare the plain parameters of the handler.
pub fn derive_accounts(groups: &Vec<Option<Vec<ParsedArg>>>, val: &AccountsStruct) -> (r: Result<
    String,
    ArgsError,
>)
    ensures
        match r {
            Ok(out) => instruction_args_spec(groups@) matches Ok(args) && out@ == accounts_source(
                *val,
                args,
            ),
            Err(e) => instruction_args_spec(groups@) == Err::<
                Seq<(Seq<char>, Seq<char>)>,
                ArgsError,
            >(e),
        },
{
    match instruction_args(groups) {
        Ok(args) => Ok(accounts_impls(val, &args)),
        Err(e) => Err(e),
    }
}

/// Writes everything that is derived for the resource set `val`, whose
/// handler takes the plain parameters `args`.
pub fn accounts_impls(val: &AccountsStruct, args: &Vec<InstructionArg>) -> (out: String)
    ensures
        out@ == accounts_source(*val, arg_views(args@)),
{
    let pre = create_pre_invariants(val);
    let post = create_post_invariants(val);
    let check = create_constraints_checks(val);
    let pre_invariant_impl = invariants_impl(val, "__pre_invariants", &pre);
    let post_invariant_impl = invariants_impl(val, "__post_invariants", &post);
    let constraint_checks = constraints_impl(val, args, &check);
    let mut out = any_impl(val);
    out.append(pre_invariant_impl.as_str());
    out.append(post_invariant_impl.as_str());
    out.append(constraint_checks.as_str());
    out
}

/// The source that declares a program's key, whose first byte is `first`.
pub open spec fn id_source(first: u8) -> Seq<char> {
    "#[doc = \"this is an id\"]\npub static ID: Pubkey = Pubkey { t: ["@ + decimal(first as nat)
        + "u8] };\n#[doc = \"this is a function which returns an id\"]\npub fn id() -> Pubkey { ID }\n"@
}

/// Writes the declaration of a program's key from the text of its address.
/// The key is the first byte of the text, which is not empty.
pub fn declare_id(account_id_str: &str) -> (out: String)
    requires
        account_id_str.spec_bytes().len() > 0,
    ensures
        out@ == id_source(account_id_str.spec_bytes()[0]),
{
    let first_char: u8 = account_id_str.as_bytes()[0];
    let number = to_decimal(first_char as usize);
    let mut out = String::from_str(
        "#[doc = \"this is an id\"]\npub static ID: Pubkey = Pubkey { t: [",
    );
    out.append(number.as_str());
    out.append(
        "u8] };\n#[doc = \"this is a function which returns an id\"]\npub fn id() -> Pubkey { ID }\n",
    );
    out
}

/// The source of a resource type: its declaration with the derives that let
/// it be manufactured, written and read, and the marks that it can be
/// written to and read from an account.
pub open spec fn account_source(item: ItemStruct) -> Seq<char> {
    "#[derive(Arbitrary, AnchorDeserialize, AnchorSerialize)]\n"@ + item.tokens@
        + "\nimpl AccountSerialize for "@ + item.ident@ + " {}\nimpl AccountDeserialize for "@
        + item.ident@ + " {}\n"@
}

/// Writes the resource type `item` out with its derives and marks.
pub fn account(item: &ItemStruct) -> (out: String)
    ensures
        out@ == account_source(*item),
{
    let mut out = String::from_str("#[derive(Arbitrary, AnchorDeserialize, AnchorSerialize)]\n");
    out.append(item.tokens.as_str());
    out.append("\nimpl AccountSerialize for ");
    out.append(item.ident.as_str());
    out.append(" {}\nimpl AccountDeserialize for ");
    out.append(item.ident.as_str());
    out.append(" {}\n");
    out
}

} // verus!
