//! Error types of a program: an enumeration whose variants carry a message.

use vstd::prelude::*;
use crate::macro_core::syntax::{attr_lines, attr_texts, Attribute};
use crate::macro_core::text::{ended, push_ended, views};

verus! {

/// A variant of an enumeration.
#[derive(Debug)]
pub struct Variant {
    /// The attributes written above the variant.
    pub attrs: Vec<Attribute>,
    /// The variant as written, without its attributes.
    pub tokens: String,
}

/// An enumeration, as far as the generators read it.
#[derive(Debug)]
pub struct ItemEnum {
    /// What stands before the name: attributes, visibility and `enum`.
    pub head: String,
    /// The name.
    pub ident: String,
    /// The generic parameters, with their angle brackets.
    pub generics: String,
    /// The variants, in order.
    pub variants: Vec<Variant>,
}

/// The attributes of `attrs` that are no message, in order.
pub open spec fn without_msg(attrs: Seq<Attribute>) -> Seq<Attribute> {
    attrs.filter(|a: Attribute| !a.named("msg"@))
}

/// Whether `after` is `before` without its message attributes.
pub open spec fn variant_stripped(before: Variant, after: Variant) -> bool {
    after.tokens == before.tokens && after.attrs@ == without_msg(before.attrs@)
}

impl Variant {
    /// The variant as source.
    pub open spec fn source(self) -> Seq<char> {
        ended(attr_texts(self.attrs@), " "@) + self.tokens@ + ",\n"@
    }

    /// Writes the variant out as source.
    pub fn to_source(&self) -> (out: String)
        ensures
            out@ == self.source(),
    {
        let attrs = attr_lines(&self.attrs);
        let mut out = String::new();
        push_ended(&mut out, &attrs, " ");
        assert(out@ =~= ended(attr_texts(self.attrs@), " "@));
        out.append(self.tokens.as_str());
        out.append(",\n");
        out
    }
}

/// The variants of `variants` as source, in order.
pub open spec fn variant_texts(variants: Seq<Variant>) -> Seq<Seq<char>> {
    variants.map_values(|v: Variant| v.source())
}

impl ItemEnum {
    /// The enumeration as source.
    pub open spec fn source(self) -> Seq<char> {
        self.head@ + " "@ + self.ident@ + self.generics@ + " {\n"@ + ended(
            variant_texts(self.variants@),
            Seq::empty(),
        ) + "}\n"@
    }

    /// Writes the enumeration out as source.
    pub fn to_source(&self) -> (out: String)
        ensures
            out@ == self.source(),
    {
        let mut lines: Vec<String> = Vec::new();
        let mut i: usize = 0;
        assert(views(lines@) =~= variant_texts(self.variants@).take(0));
        while i < self.variants.len()
            invariant
                i <= self.variants.len(),
                lines.len() == i,
                views(lines@) == variant_texts(self.variants@).take(i as int),
            decreases self.variants.len() - i,
        {
            let ghost before = lines@;
            lines.push(self.variants[i].to_source());
            assert(forall|j: int| 0 <= j < i ==> views(lines@)[j] == views(before)[j]);
            assert(views(lines@) =~= variant_texts(self.variants@).take(i + 1));
            i = i + 1;
        }
        assert(variant_texts(self.variants@).take(self.variants.len() as int) =~= variant_texts(
            self.variants@,
        ));
        proof {
            reveal_strlit("");
            assert(""@ =~= Seq::<char>::empty());
        }
        let mut out = self.head.clone();
        out.append(" ");
        out.append(self.ident.as_str());
        out.append(self.generics.as_str());
        out.append(" {\n");
        push_ended(&mut out, &lines, "");
        out.append("}\n");
        out
    }
}

/// The source of an error type: its declaration with the derives of an
/// error, the way it is shown and the way it turns into the error of a
/// handler.
pub open spec fn error_source(item: ItemEnum) -> Seq<char> {
    "#[derive(Debug, thiserror::Error)]\n"@ + item.source() + "impl "@ + item.generics@
        + " std::fmt::Display for "@ + item.ident@ + " "@ + item.generics@
        + " { fn fmt(&self, f: &mut std::fmt::Formatter<'_>) -> std::fmt::Result { <Self as std::fmt::Debug>::fmt(self, f) } }\nimpl From<"@
        + item.ident@
        + "> for anchor_lang::prelude::Error { fn from(value: "@ + item.ident@
        + ") -> Self { anchor_lang::prelude::Error::CustomError(value.to_string()) } }\n"@
}

/// Takes the message attributes off the variants of `val`.
pub fn strip_messages(val: &mut ItemEnum)
    ensures
        final(val).head == old(val).head,
        final(val).ident == old(val).ident,
        final(val).generics == old(val).generics,
        final(val).variants@.len() == old(val).variants@.len(),
        forall|i: int|
            0 <= i < old(val).variants@.len() ==> variant_stripped(
                #[trigger] old(val).variants@[i],
                final(val).variants@[i],
            ),
{
    let mut taken: Vec<Variant> = Vec::new();
    core::mem::swap(&mut val.variants, &mut taken);
    let ghost all = taken@;
    for variant in it: taken
        invariant
            it.seq() == all,
            val.head == old(val).head,
            val.ident == old(val).ident,
            val.generics == old(val).generics,
            val.variants@.len() == it.index(),
            forall|i: int|
                0 <= i < val.variants@.len() ==> variant_stripped(
                    #[trigger] all[i],
                    val.variants@[i],
                ),
    {
        let Variant { attrs, tokens } = variant;
        let ghost attrs_all = attrs@;
        let mut stripped: Vec<Attribute> = Vec::new();
        proof {
            reveal(Seq::filter);
            assert(attrs_all.take(0) =~= Seq::<Attribute>::empty());
            assert(stripped@ =~= without_msg(attrs_all.take(0)));
        }
        for attr in at: attrs
            invariant
                at.seq() == attrs_all,
                stripped@ == without_msg(attrs_all.take(at.index() as int)),
        {
            proof {
                reveal(Seq::filter);
                let k = at.index() as int;
                assert(attrs_all.take(k + 1).drop_last() =~= attrs_all.take(k));
                assert(attrs_all.take(k + 1).last() == attr);
            }
            if !attr.is_ident("msg") {
                stripped.push(attr);
            }
        }
        assert(attrs_all.take(attrs_all.len() as int) =~= attrs_all);
        val.variants.push(Variant { attrs: stripped, tokens });
    }
}

/// Takes the message attributes off the variants of `val` and writes the
/// enumeration out as an error type.
pub fn error_code(val: &mut ItemEnum) -> (out: String)
    ensures
        final(val).head == old(val).head,
        final(val).ident == old(val).ident,
        final(val).generics == old(val).generics,
        final(val).variants@.len() == old(val).variants@.len(),
        forall|i: int|
            0 <= i < old(val).variants@.len() ==> variant_stripped(
                #[trigger] old(val).variants@[i],
                final(val).variants@[i],
            ),
        out@ == error_source(*final(val)),
{
    strip_messages(val);
    let filtered_item = val.to_source();
    let mut out = String::from_str("#[derive(Debug, thiserror::Error)]\n");
    out.append(filtered_item.as_str());
    out.append("impl ");
    out.append(val.generics.as_str());
    out.append(" std::fmt::Display for ");
    out.append(val.ident.as_str());
    out.append(" ");
    out.append(val.generics.as_str());
    out.append(
        " { fn fmt(&self, f: &mut std::fmt::Formatter<'_>) -> std::fmt::Result { <Self as std::fmt::Debug>::fmt(self, f) } }\nimpl From<",
    );
    out.append(val.ident.as_str());
    out.append("> for anchor_lang::prelude::Error { fn from(value: ");
    out.append(val.ident.as_str());
    out.append(") -> Self { anchor_lang::prelude::Error::CustomError(value.to_string()) } }\n");
    out
}

} // verus!
