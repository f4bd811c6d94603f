use vstd::prelude::*;

use crate::field_receiver::{FieldError, FieldReceiver};
use crate::generics::{spec_split_agrees, split_for_impl};
use crate::impl_partial::{spec_all_named, spec_impl_tokens, ImplPartial, SplitGenerics};
use crate::text::{push_comma_list, push_meta_attrs, spec_comma_list, spec_meta_attrs};

verus! {

/// An attribute of the input struct: its path (such as `derive` or `serde`) and
/// its full text `#[..]`.
#[derive(Debug)]
pub struct StructAttr {
    pub path: String,
    pub text: String,
}

/// The input struct, as the attribute parser hands it over.
#[derive(Debug)]
pub struct DeriveReceiver {
    /// The name of the input struct.
    pub ident: String,
    /// The visibility of the input struct (empty when inherited).
    pub vis: String,
    /// The generic parameters as written, such as `<T>` (empty when there are none).
    pub generics: String,
    /// The where clause as written (empty when there is none).
    pub where_clause: String,
    /// The struct's own attributes.
    pub attrs: Vec<StructAttr>,
    /// `rename = ".."`: the name of the partial struct.
    pub rename: Option<String>,
    /// `derive(..)`: the traits the partial struct derives.
    pub derive: Vec<String>,
    /// `attribute(..)`: metas to add as attributes to the partial struct.
    pub additional_attrs: Vec<String>,
    /// `skip_attributes`: do not copy the struct's own attributes.
    pub skip_attrs: bool,
    /// `crate = ".."`: the path of the crate that defines `Partial`.
    pub krate: Option<String>,
    /// The fields, in order.
    pub fields: Vec<FieldReceiver>,
}

/// Why an input struct cannot be expanded.
#[derive(Debug)]
pub enum ExpandError {
    /// Some fields break rules; every broken rule, field by field.
    InvalidFields(Vec<FieldError>),
    /// The generics or the where clause do not parse.
    UnparsableGenerics,
}

/// The struct's attributes that are copied: all but its `derive` attributes.
pub open spec fn spec_forwarded_attrs(attrs: Seq<StructAttr>) -> Seq<char>
    decreases attrs.len(),
{
    if attrs.len() == 0 {
        Seq::empty()
    } else {
        spec_forwarded_attrs(attrs.drop_last()) + if attrs.last().path@ == "derive"@ {
            Seq::empty()
        } else {
            attrs.last().text@ + " "@
        }
    }
}

/// The field declarations of the partial struct, each followed by `, `;
/// omitted fields leave no trace.
pub open spec fn spec_struct_fields(fields: Seq<FieldReceiver>, krate: Seq<char>) -> Seq<char>
    decreases fields.len(),
{
    if fields.len() == 0 {
        Seq::empty()
    } else {
        spec_struct_fields(fields.drop_last(), krate) + if fields.last().omit {
            Seq::empty()
        } else {
            fields.last().spec_field_tokens(krate) + ", "@
        }
    }
}

/// The fields that are not omitted, in order.
pub open spec fn spec_kept<'a>(fields: Seq<FieldReceiver>) -> Seq<&'a FieldReceiver>
    decreases fields.len(),
{
    if fields.len() == 0 {
        Seq::empty()
    } else if fields.last().omit {
        spec_kept(fields.drop_last())
    } else {
        spec_kept(fields.drop_last()).push(&fields.last())
    }
}

/// Every broken rule of every field, field by field.
pub open spec fn spec_all_violations(fields: Seq<FieldReceiver>) -> Seq<FieldError>
    decreases fields.len(),
{
    if fields.len() == 0 {
        Seq::empty()
    } else {
        spec_all_violations(fields.drop_last()) + fields.last().spec_violations()
    }
}

impl DeriveReceiver {
    /// The name of the partial struct: `rename`, else `Partial` and the struct's name.
    pub open spec fn spec_partial_ident(&self) -> Seq<char> {
        match self.rename {
            Some(r) => r@,
            None => "Partial"@ + self.ident@,
        }
    }

    /// The path of the crate that defines `Partial`: `crate`, else `partially`.
    pub open spec fn spec_krate(&self) -> Seq<char> {
        match self.krate {
            Some(k) => k@,
            None => "partially"@,
        }
    }

    /// The `#[derive(..)]` attribute of the partial struct, if any trait is derived.
    pub open spec fn spec_derive_attr(&self) -> Seq<char> {
        if self.derive@.len() == 0 {
            Seq::empty()
        } else {
            "#[derive("@ + spec_comma_list(self.derive@) + ")] "@
        }
    }

    /// The declaration of the partial struct: its derive, the struct's forwarded
    /// attributes (unless `skip_attributes`), the added attributes, then the
    /// struct with the same visibility, generics and where clause, and one field
    /// for each field that is not omitted.
    pub open spec fn spec_struct_tokens(&self) -> Seq<char> {
        self.spec_derive_attr()
            + (if self.skip_attrs { Seq::empty() } else { spec_forwarded_attrs(self.attrs@) })
            + spec_meta_attrs(self.additional_attrs@) + self.vis@ + " struct "@
            + self.spec_partial_ident() + self.generics@ + " "@ + self.where_clause@ + " { "@
            + spec_struct_fields(self.fields@, self.spec_krate()) + "} "@
    }

    /// The whole expansion for given split generics: the partial struct, the impl
    /// from the struct to the partial struct, and the impl from the partial struct
    /// to itself.
    pub open spec fn spec_tokens(&self, g: (Seq<char>, Seq<char>, Seq<char>)) -> Seq<char> {
        let kept = spec_kept(self.fields@);
        self.spec_struct_tokens()
            + spec_impl_tokens(self.spec_krate(), g, self.ident@, self.spec_partial_ident(), kept)
            + spec_impl_tokens(self.spec_krate(), g, self.spec_partial_ident(), self.spec_partial_ident(), kept)
    }

    /// Every field that is not omitted has a name.
    pub open spec fn spec_kept_named(&self) -> bool {
        forall|i: int| 0 <= i < self.fields@.len() ==> (#[trigger] self.fields@[i]).omit
            || self.fields@[i].ident is Some
    }

    /// The name of the partial struct.
    pub fn partial_ident(&self) -> (res: String)
        ensures
            res@ == self.spec_partial_ident(),
    {
        let mut name = String::new();
        match &self.rename {
            Some(r) => name.append(r.as_str()),
            None => {
                name.append("Partial");
                name.append(self.ident.as_str());
            },
        }
        name
    }

    /// The path of the crate that defines `Partial`.
    pub fn krate_path(&self) -> (res: String)
        ensures
            res@ == self.spec_krate(),
    {
        let mut path = String::new();
        match &self.krate {
            Some(k) => path.append(k.as_str()),
            None => path.append("partially"),
        }
        path
    }

    /// Appends the copied attributes of the struct.
    fn push_forwarded_attrs(&self, tokens: &mut String)
        ensures
            final(tokens)@ == old(tokens)@ + spec_forwarded_attrs(self.attrs@),
    {
        let ghost base = tokens@;
        let attrs = &self.attrs;
        let derive = String::from_str("derive");
        let mut i: usize = 0;
        while i < attrs.len()
            invariant
                i <= attrs.len(),
                derive@ == "derive"@,
                tokens@ == base + spec_forwarded_attrs(attrs@.take(i as int)),
            decreases attrs.len() - i,
        {
            assert(attrs@.take(i + 1).drop_last() =~= attrs@.take(i as int));
            if attrs[i].path != derive {
                tokens.append(attrs[i].text.as_str());
                tokens.append(" ");
            }
            i = i + 1;
        }
        assert(attrs@.take(i as int) =~= attrs@);
    }

    /// Appends the field declarations of the partial struct.
    fn push_struct_fields(&self, tokens: &mut String, krate: &str)
        requires
            self.spec_kept_named(),
        ensures
            final(tokens)@ == old(tokens)@ + spec_struct_fields(self.fields@, krate@),
    {
        let ghost base = tokens@;
        let fields = &self.fields;
        let mut i: usize = 0;
        while i < fields.len()
            invariant
                i <= fields.len(),
                self.spec_kept_named(),
                fields == &self.fields,
                tokens@ == base + spec_struct_fields(fields@.take(i as int), krate@),
            decreases fields.len() - i,
        {
            assert(fields@.take(i + 1).drop_last() =~= fields@.take(i as int));
            assert(fields@[i as int].omit || fields@[i as int].ident is Some);
            if !fields[i].omit {
                fields[i].to_tokens(tokens, krate);
                tokens.append(", ");
            }
            i = i + 1;
        }
        assert(fields@.take(i as int) =~= fields@);
    }

    /// Appends the declaration of the partial struct.
    #[verifier::rlimit(50)]
    pub fn struct_to_tokens(&self, tokens: &mut String)
        requires
            self.spec_kept_named(),
        ensures
            final(tokens)@ == old(tokens)@ + self.spec_struct_tokens(),
    {
        let ghost base = tokens@;
        if self.derive.len() > 0 {
            tokens.append("#[derive(");
            push_comma_list(tokens, &self.derive);
            tokens.append(")] ");
        }
        if !self.skip_attrs {
            self.push_forwarded_attrs(tokens);
        }
        push_meta_attrs(tokens, &self.additional_attrs);
        tokens.append(self.vis.as_str());
        tokens.append(" struct ");
        let name = self.partial_ident();
        tokens.append(name.as_str());
        tokens.append(self.generics.as_str());
        tokens.append(" ");
        tokens.append(self.where_clause.as_str());
        tokens.append(" { ");
        let krate = self.krate_path();
        self.push_struct_fields(tokens, krate.as_str());
        tokens.append("} ");
        assert(tokens@ =~= base + self.spec_struct_tokens());
    }

    /// The fields that are not omitted.
    pub fn kept_fields(&self) -> (res: Vec<&FieldReceiver>)
        ensures
            res@ == spec_kept(self.fields@),
    {
        let fields = &self.fields;
        let mut kept: Vec<&FieldReceiver> = Vec::new();
        let mut i: usize = 0;
        while i < fields.len()
            invariant
                i <= fields.len(),
                kept@ == spec_kept(fields@.take(i as int)),
            decreases fields.len() - i,
        {
            assert(fields@.take(i + 1).drop_last() =~= fields@.take(i as int));
            if !fields[i].omit {
                kept.push(&fields[i]);
            }
            i = i + 1;
        }
        assert(fields@.take(i as int) =~= fields@);
        kept
    }

    /// Appends the whole expansion for the given split generics: the partial
    /// struct and its two `Partial` impls.
    pub fn to_tokens(&self, tokens: &mut String, generics: &SplitGenerics)
        requires
            self.spec_kept_named(),
        ensures
            final(tokens)@ == old(tokens)@ + self.spec_tokens(generics.spec_parts()),
    {
        let ghost base = tokens@;
        self.struct_to_tokens(tokens);
        let krate = self.krate_path();
        let name = self.partial_ident();
        let kept = self.kept_fields();
        proof {
            lemma_kept_named(self.fields@);
        }
        let from_struct = ImplPartial {
            krate: krate.as_str(),
            generics,
            from_ident: &self.ident,
            to_ident: &name,
            fields: &kept,
        };
        from_struct.to_tokens(tokens);
        let from_partial = ImplPartial {
            krate: krate.as_str(),
            generics,
            from_ident: &name,
            to_ident: &name,
            fields: &kept,
        };
        from_partial.to_tokens(tokens);
        assert(tokens@ =~= base + self.spec_tokens(generics.spec_parts()));
    }
}

/// Every broken rule of every field, field by field.
pub fn all_violations(fields: &Vec<FieldReceiver>) -> (errs: Vec<FieldError>)
    ensures
        errs@ == spec_all_violations(fields@),
{
    let mut errs: Vec<FieldError> = Vec::new();
    let mut i: usize = 0;
    while i < fields.len()
        invariant
            i <= fields.len(),
            errs@ == spec_all_violations(fields@.take(i as int)),
        decreases fields.len() - i,
    {
        assert(fields@.take(i + 1).drop_last() =~= fields@.take(i as int));
        let mut more = fields[i].violations();
        errs.append(&mut more);
        i = i + 1;
    }
    assert(fields@.take(i as int) =~= fields@);
    errs
}

/// Where no field breaks a rule, every field has a name.
pub proof fn lemma_valid_fields_named(fields: Seq<FieldReceiver>)
    requires
        spec_all_violations(fields).len() == 0,
    ensures
        forall|i: int| 0 <= i < fields.len() ==> (#[trigger] fields[i]).ident is Some,
    decreases fields.len(),
{
    if fields.len() > 0 {
        let prefix = fields.drop_last();
        lemma_valid_fields_named(prefix);
        assert forall|i: int| 0 <= i < fields.len() implies (#[trigger] fields[i]).ident is Some by {
            if i < prefix.len() {
                assert(prefix[i] == fields[i]);
            } else {
                assert(fields[i] == fields.last());
                if fields.last().ident is None {
                    assert(fields.last().spec_violations()[0] == FieldError::UnnamedField);
                }
            }
        }
    }
}

/// The fields that are kept all have a name when every field that is not
/// omitted has one.
proof fn lemma_kept_named(fields: Seq<FieldReceiver>)
    requires
        forall|i: int| 0 <= i < fields.len() ==> (#[trigger] fields[i]).omit || fields[i].ident is Some,
    ensures
        spec_all_named(spec_kept(fields)),
    decreases fields.len(),
{
    if fields.len() > 0 {
        let prefix = fields.drop_last();
        assert forall|i: int| 0 <= i < prefix.len() implies (#[trigger] prefix[i]).omit || prefix[i].ident is Some by {
            assert(prefix[i] == fields[i]);
        }
        lemma_kept_named(prefix);
        assert(fields.last() == fields[fields.len() - 1]);
    }
}

/// Expands the input struct: where a field breaks a rule, every broken rule;
/// else the struct's own generics and where clause are split by `syn`, and the
/// result is the partial struct and its two `Partial` impls as text for the split
/// that came back, or, where `syn` could not parse them, `UnparsableGenerics`.
/// A struct without generics and without a where clause always expands, with
/// empty impl parameters, type arguments and where clause.
pub fn expand_derive_partial(item: &DeriveReceiver) -> (res: Result<String, ExpandError>)
    ensures
        spec_all_violations(item.fields@).len() > 0 ==> (res matches Err(ExpandError::InvalidFields(errs))
            && errs@ == spec_all_violations(item.fields@)),
        spec_all_violations(item.fields@).len() == 0 ==> match res {
            Ok(text) => exists|g: (Seq<char>, Seq<char>, Seq<char>)|
                spec_split_agrees(item.generics@, item.where_clause@, g)
                && text@ == #[trigger] item.spec_tokens(g),
            Err(e) => e is UnparsableGenerics,
        },
        spec_all_violations(item.fields@).len() == 0 && item.generics@.len() == 0
            && item.where_clause@.len() == 0 ==> (res is Ok && res->Ok_0@ == item.spec_tokens(
            (Seq::empty(), Seq::empty(), Seq::empty()),
        )),
{
    let split = split_for_impl(item.generics.as_str(), item.where_clause.as_str());
    let ghost returned = split;
    let res = expand_with_split(item, split);
    proof {
        if let Some(g) = returned {
            if item.generics@.len() == 0 && item.where_clause@.len() == 0 {
                assert(g.spec_parts() =~= (Seq::empty(), Seq::empty(), Seq::empty()));
            }
        }
    }
    res
}

/// Expands the input struct with generics that are already split: where a field
/// breaks a rule, every broken rule; else, for a split, the partial struct and its
/// two `Partial` impls over exactly that split, and for no split (the generics did
/// not parse) `UnparsableGenerics`, and only then.
pub fn expand_with_split(item: &DeriveReceiver, split: Option<SplitGenerics>) -> (res: Result<String, ExpandError>)
    ensures
        spec_all_violations(item.fields@).len() > 0 ==> (res matches Err(ExpandError::InvalidFields(errs))
            && errs@ == spec_all_violations(item.fields@)),
        spec_all_violations(item.fields@).len() == 0 ==> match split {
            Some(g) => res matches Ok(text) && text@ == item.spec_tokens(g.spec_parts()),
            None => res matches Err(ExpandError::UnparsableGenerics),
        },
{
    let errs = all_violations(&item.fields);
    if errs.len() > 0 {
        return Err(ExpandError::InvalidFields(errs));
    }
    proof {
        lemma_valid_fields_named(item.fields@);
    }
    match split {
        None => Err(ExpandError::UnparsableGenerics),
        Some(generics) => {
            let mut tokens = String::new();
            item.to_tokens(&mut tokens, &generics);
            Ok(tokens)
        },
    }
}

} // verus!
