use vstd::prelude::*;

use crate::field_receiver::FieldReceiver;

verus! {

/// The three pieces of a type's generics that an impl needs: the parameters
/// after `impl`, the arguments after the type's name, and the where clause.
pub struct SplitGenerics {
    pub impl_generics: String,
    pub ty_generics: String,
    pub where_clause: String,
}

impl SplitGenerics {
    /// The three pieces as text.
    pub open spec fn spec_parts(&self) -> (Seq<char>, Seq<char>, Seq<char>) {
        (self.impl_generics@, self.ty_generics@, self.where_clause@)
    }
}

/// How the generated `apply_some` moves one field of the partial into the target.
#[derive(Clone, Copy, Debug, PartialEq, Eq, Structural)]
pub enum Applicator {
    /// `if let Some(v) = partial.f { self.f = v.into(); }`
    IfSome,
    /// `krate::Partial::apply_some(&mut self.f, partial.f)`, whose result is or-ed in.
    ApplySome,
    /// The field's `apply_with` expression, called on the partial value and the target,
    /// whose result is or-ed in.
    Custom,
}

/// The applicator of a field: `nested` fields and, between two partial types,
/// `apply_with` fields delegate to `Partial::apply_some`; otherwise an `apply_with`
/// field calls its expression; every other field is copied when it is `Some`.
pub open spec fn spec_applicator(f: FieldReceiver, partial_to_partial: bool) -> Applicator {
    if f.nested {
        Applicator::ApplySome
    } else if f.apply_with is Some {
        if partial_to_partial {
            Applicator::ApplySome
        } else {
            Applicator::Custom
        }
    } else {
        Applicator::IfSome
    }
}

/// Whether the field takes part in the up-front `is_some` check: only fields
/// that are neither `nested` nor `apply_with` have an `Option` type for sure.
pub open spec fn spec_in_is_some_check(f: FieldReceiver) -> bool {
    !f.nested && f.apply_with is None
}

/// The ` || partial.f.is_some()` terms of the fields in the up-front check.
pub open spec fn spec_is_some_terms(fields: Seq<&FieldReceiver>) -> Seq<char>
    decreases fields.len(),
{
    if fields.len() == 0 {
        Seq::empty()
    } else {
        let f = *fields.last();
        spec_is_some_terms(fields.drop_last()) + if spec_in_is_some_check(f) {
            " || partial."@ + f.spec_dst_name() + ".is_some()"@
        } else {
            Seq::empty()
        }
    }
}

/// The statement that applies one field.
pub open spec fn spec_applicator_tokens(f: FieldReceiver, krate: Seq<char>, partial_to_partial: bool) -> Seq<char> {
    let src = f.spec_src_name();
    let dst = f.spec_dst_name();
    match spec_applicator(f, partial_to_partial) {
        Applicator::IfSome => "if let Some("@ + dst + ") = partial."@ + dst + " { self."@ + src
            + " = "@ + dst + ".into(); } "@,
        Applicator::ApplySome => "will_apply_some = "@ + krate + "::Partial::apply_some(&mut self."@
            + src + ", partial."@ + dst + ") || will_apply_some; "@,
        Applicator::Custom => "will_apply_some = ("@ + f.apply_with->Some_0@ + ")(partial."@ + dst
            + ", &mut self."@ + src + ") || will_apply_some; "@,
    }
}

/// The statements that apply the fields, in order.
pub open spec fn spec_applicators(fields: Seq<&FieldReceiver>, krate: Seq<char>, partial_to_partial: bool) -> Seq<char>
    decreases fields.len(),
{
    if fields.len() == 0 {
        Seq::empty()
    } else {
        spec_applicators(fields.drop_last(), krate, partial_to_partial)
            + spec_applicator_tokens(*fields.last(), krate, partial_to_partial)
    }
}

/// Every field has a name.
pub open spec fn spec_all_named(fields: Seq<&FieldReceiver>) -> bool {
    forall|i: int| 0 <= i < fields.len() ==> (#[trigger] fields[i]).ident is Some
}

/// The text of `impl krate::Partial for From { type Item = To; fn apply_some(..) }`
/// over the given fields.
pub open spec fn spec_impl_tokens(
    krate: Seq<char>,
    g: (Seq<char>, Seq<char>, Seq<char>),
    from_ident: Seq<char>,
    to_ident: Seq<char>,
    fields: Seq<&FieldReceiver>,
) -> Seq<char> {
    "impl"@ + g.0 + " "@ + krate + "::Partial for "@ + from_ident + g.1 + " "@ + g.2
        + " { type Item = "@ + to_ident + g.1
        + "; fn apply_some(&mut self, partial: Self::Item) -> bool { let mut will_apply_some = false"@
        + spec_is_some_terms(fields) + "; "@ + spec_applicators(fields, krate, from_ident == to_ident)
        + "will_apply_some } } "@
}

/// One `impl krate::Partial for From { type Item = To; fn apply_some(..) }`.
pub struct ImplPartial<'a> {
    /// The path of the crate that defines `Partial`.
    pub krate: &'a str,
    pub generics: &'a SplitGenerics,
    /// The type the impl is for.
    pub from_ident: &'a String,
    /// The partial type, the impl's `Item`.
    pub to_ident: &'a String,
    /// The fields of the partial type; omitted fields are already left out.
    pub fields: &'a Vec<&'a FieldReceiver>,
}

impl<'a> ImplPartial<'a> {
    /// The impl is from a partial type to itself.
    pub open spec fn spec_partial_to_partial(&self) -> bool {
        self.from_ident@ == self.to_ident@
    }

    /// The text of the impl.
    pub open spec fn spec_tokens(&self) -> Seq<char> {
        spec_impl_tokens(self.krate@, self.generics.spec_parts(), self.from_ident@, self.to_ident@, self.fields@)
    }

    /// Appends the ` || partial.f.is_some()` terms.
    fn push_is_some_terms(&self, tokens: &mut String)
        requires
            spec_all_named(self.fields@),
        ensures
            final(tokens)@ == old(tokens)@ + spec_is_some_terms(self.fields@),
    {
        let ghost base = tokens@;
        let fields = self.fields;
        let mut i: usize = 0;
        while i < fields.len()
            invariant
                i <= fields.len(),
                spec_all_named(fields@),
                tokens@ == base + spec_is_some_terms(fields@.take(i as int)),
            decreases fields.len() - i,
        {
            assert(fields@.take(i + 1).drop_last() =~= fields@.take(i as int));
            let f: &FieldReceiver = fields[i];
            assert(f.ident is Some);
            if !f.nested && f.apply_with.is_none() {
                tokens.append(" || partial.");
                tokens.append(f.dst_name().as_str());
                tokens.append(".is_some()");
            }
            i = i + 1;
        }
        assert(fields@.take(i as int) =~= fields@);
    }

    /// Appends the statement that applies one field.
    fn push_applicator(tokens: &mut String, f: &FieldReceiver, krate: &str, partial_to_partial: bool)
        requires
            f.ident is Some,
        ensures
            final(tokens)@ == old(tokens)@ + spec_applicator_tokens(*f, krate@, partial_to_partial),
    {
        let ghost base = tokens@;
        let src = f.ident.as_ref().unwrap().as_str();
        let dst = f.dst_name().as_str();
        if f.nested || (f.apply_with.is_some() && partial_to_partial) {
            tokens.append("will_apply_some = ");
            tokens.append(krate);
            tokens.append("::Partial::apply_some(&mut self.");
            tokens.append(src);
            tokens.append(", partial.");
            tokens.append(dst);
            tokens.append(") || will_apply_some; ");
        } else if let Some(expr) = &f.apply_with {
            tokens.append("will_apply_some = (");
            tokens.append(expr.as_str());
            tokens.append(")(partial.");
            tokens.append(dst);
            tokens.append(", &mut self.");
            tokens.append(src);
            tokens.append(") || will_apply_some; ");
        } else {
            tokens.append("if let Some(");
            tokens.append(dst);
            tokens.append(") = partial.");
            tokens.append(dst);
            tokens.append(" { self.");
            tokens.append(src);
            tokens.append(" = ");
            tokens.append(dst);
            tokens.append(".into(); } ");
        }
        assert(tokens@ =~= base + spec_applicator_tokens(*f, krate@, partial_to_partial));
    }

    /// Appends the statements that apply the fields.
    fn push_applicators(&self, tokens: &mut String, partial_to_partial: bool)
        requires
            spec_all_named(self.fields@),
        ensures
            final(tokens)@ == old(tokens)@ + spec_applicators(self.fields@, self.krate@, partial_to_partial),
    {
        let ghost base = tokens@;
        let fields = self.fields;
        let mut i: usize = 0;
        while i < fields.len()
            invariant
                i <= fields.len(),
                spec_all_named(fields@),
                tokens@ == base + spec_applicators(fields@.take(i as int), self.krate@, partial_to_partial),
            decreases fields.len() - i,
        {
            assert(fields@.take(i + 1).drop_last() =~= fields@.take(i as int));
            let f: &FieldReceiver = fields[i];
            assert(f.ident is Some);
            Self::push_applicator(tokens, f, self.krate, partial_to_partial);
            i = i + 1;
        }
        assert(fields@.take(i as int) =~= fields@);
    }

    /// Appends the impl: `Item` is the partial type, and `apply_some` first
    /// records whether any plain field of the partial is `Some`, then applies the
    /// fields one by one and returns whether anything was applied.
    #[verifier::rlimit(50)]
    pub fn to_tokens(&self, tokens: &mut String)
        requires
            spec_all_named(self.fields@),
        ensures
            final(tokens)@ == old(tokens)@ + self.spec_tokens(),
    {
        let ghost base = tokens@;
        let partial_to_partial = *self.from_ident == *self.to_ident;
        let g = self.generics;
        tokens.append("impl");
        tokens.append(g.impl_generics.as_str());
        tokens.append(" ");
        tokens.append(self.krate);
        tokens.append("::Partial for ");
        tokens.append(self.from_ident.as_str());
        tokens.append(g.ty_generics.as_str());
        tokens.append(" ");
        tokens.append(g.where_clause.as_str());
        tokens.append(" { type Item = ");
        tokens.append(self.to_ident.as_str());
        tokens.append(g.ty_generics.as_str());
        tokens.append("; fn apply_some(&mut self, partial: Self::Item) -> bool { let mut will_apply_some = false");
        self.push_is_some_terms(tokens);
        tokens.append("; ");
        self.push_applicators(tokens, partial_to_partial);
        tokens.append("will_apply_some } } ");
        assert(tokens@ =~= base + self.spec_tokens());
    }
}

} // verus!
