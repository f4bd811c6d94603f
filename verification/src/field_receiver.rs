use vstd::prelude::*;

use crate::text::{push_attr_lines, push_meta_attrs, spec_attr_lines, spec_meta_attrs};

verus! {

/// A rule that a field's `#[partially(..)]` options break.
#[derive(Clone, Copy, Debug, PartialEq, Eq, Structural)]
pub enum FieldError {
    /// The field has no name (tuple or newtype body).
    UnnamedField,
    /// `omit` is combined with `rename`, `transparent`, `as_type` or `nested`.
    OmitWithOtherOptions,
    /// More than one of `transparent`, `as_type` and `nested` is given.
    ExclusiveTypeOptions,
    /// `apply_with` is combined with `nested`.
    ApplyWithNested,
}

impl FieldError {
    /// The message reported for the broken rule.
    pub open spec fn spec_message(self) -> Seq<char> {
        match self {
            FieldError::UnnamedField => "cannot use rename on an unnamed field"@,
            FieldError::OmitWithOtherOptions => "cannot use omit with any other options"@,
            FieldError::ExclusiveTypeOptions => "transparent, as_type and nested are mutually exclusive"@,
            FieldError::ApplyWithNested => "apply_with and nested are mutually exclusive (both override application logic)"@,
        }
    }

    /// The message reported for the broken rule.
    pub fn message(&self) -> (res: String)
        ensures
            res@ == self.spec_message(),
    {
        match self {
            FieldError::UnnamedField => String::from_str("cannot use rename on an unnamed field"),
            FieldError::OmitWithOtherOptions => String::from_str("cannot use omit with any other options"),
            FieldError::ExclusiveTypeOptions => String::from_str(
                "transparent, as_type and nested are mutually exclusive",
            ),
            FieldError::ApplyWithNested => String::from_str(
                "apply_with and nested are mutually exclusive (both override application logic)",
            ),
        }
    }
}

/// One field of the input struct, as the attribute parser hands it over: every
/// syntax element is kept as its token text.
#[derive(Debug)]
pub struct FieldReceiver {
    /// The name of the field; `None` for fields of tuple or newtype structs.
    pub ident: Option<String>,
    /// The visibility of the field (empty when inherited).
    pub vis: String,
    /// The field's own attributes (doc comments included), each as full text `#[..]`.
    pub attrs: Vec<String>,
    /// The field's type.
    pub ty: String,
    /// `rename = ".."`: the name of the generated field.
    pub rename: Option<String>,
    /// `omit`: leave the field out of the generated struct.
    pub omit: bool,
    /// `attribute(..)`: metas to add as attributes to the generated field.
    pub additional_attrs: Vec<String>,
    /// `skip_attributes`: do not copy the field's own attributes.
    pub skip_attrs: bool,
    /// `transparent`: keep the field's type as it is.
    pub transparent: bool,
    /// `as_type = ".."`: use this type verbatim for the generated field.
    pub as_type: Option<String>,
    /// `nested`: the field's type is itself `Partial`.
    pub nested: bool,
    /// `apply_with = ".."`: a custom applicator expression.
    pub apply_with: Option<String>,
}

impl FieldReceiver {
    /// How many of `transparent`, `as_type` and `nested` are given.
    pub open spec fn spec_type_option_count(self) -> int {
        (if self.transparent { 1int } else { 0int })
        + (if self.as_type is Some { 1int } else { 0int })
        + (if self.nested { 1int } else { 0int })
    }

    /// The rules that this field breaks, in the order they are checked.
    pub open spec fn spec_violations(self) -> Seq<FieldError> {
        (if self.ident is None { seq![FieldError::UnnamedField] } else { Seq::empty() })
        + (if self.omit && (self.rename is Some || self.transparent || self.as_type is Some || self.nested) {
            seq![FieldError::OmitWithOtherOptions]
        } else {
            Seq::empty()
        })
        + (if self.spec_type_option_count() > 1 { seq![FieldError::ExclusiveTypeOptions] } else { Seq::empty() })
        + (if self.apply_with is Some && self.nested { seq![FieldError::ApplyWithNested] } else { Seq::empty() })
    }

    /// The field obeys every rule.
    pub open spec fn spec_valid(self) -> bool {
        self.spec_violations().len() == 0
    }

    /// The rules this field breaks, in the order of the checks.
    pub fn violations(&self) -> (errs: Vec<FieldError>)
        ensures
            errs@ == self.spec_violations(),
    {
        let mut acc: Vec<FieldError> = Vec::new();
        if self.ident.is_none() {
            acc.push(FieldError::UnnamedField);
        }
        if self.omit && (self.rename.is_some() || self.transparent || self.as_type.is_some()
            || self.nested) {
            acc.push(FieldError::OmitWithOtherOptions);
        }
        let mut count: u8 = 0;
        if self.transparent {
            count = count + 1;
        }
        if self.as_type.is_some() {
            count = count + 1;
        }
        if self.nested {
            count = count + 1;
        }
        if count > 1 {
            acc.push(FieldError::ExclusiveTypeOptions);
        }
        if self.apply_with.is_some() && self.nested {
            acc.push(FieldError::ApplyWithNested);
        }
        assert(acc@ =~= self.spec_violations());
        acc
    }

    /// Checks the field's options. Every broken rule is reported, in the order
    /// of the checks; a field that breaks none is handed back unchanged.
    pub fn validate(self) -> (res: Result<FieldReceiver, Vec<FieldError>>)
        ensures
            match res {
                Ok(f) => f == self && self.spec_valid(),
                Err(errs) => errs@ == self.spec_violations() && errs@.len() > 0,
            },
    {
        let errs = self.violations();
        if errs.len() == 0 {
            Ok(self)
        } else {
            Err(errs)
        }
    }
}

impl FieldReceiver {
    /// The name of the field in the input struct.
    pub open spec fn spec_src_name(self) -> Seq<char> {
        match self.ident {
            Some(i) => i@,
            None => Seq::empty(),
        }
    }

    /// The name of the generated field: `rename`, else the field's own name.
    pub open spec fn spec_dst_name(self) -> Seq<char> {
        match self.rename {
            Some(r) => r@,
            None => self.spec_src_name(),
        }
    }

    /// The type of the generated field: the field's type for `transparent`, the
    /// `as_type` verbatim, `<T as krate::Partial>::Item` for `nested`, else `Option<T>`.
    pub open spec fn spec_dst_type(self, krate: Seq<char>) -> Seq<char> {
        if self.transparent {
            self.ty@
        } else if self.as_type is Some {
            self.as_type->Some_0@
        } else if self.nested {
            "<"@ + self.ty@ + " as "@ + krate + "::Partial>::Item"@
        } else {
            "Option<"@ + self.ty@ + ">"@
        }
    }

    /// The attributes of the generated field: the field's own (unless
    /// `skip_attributes`), then those given with `attribute(..)`.
    pub open spec fn spec_dst_attrs(self) -> Seq<char> {
        (if self.skip_attrs { Seq::empty() } else { spec_attr_lines(self.attrs@) })
        + spec_meta_attrs(self.additional_attrs@)
    }

    /// The declaration of the generated field; nothing for an omitted field.
    pub open spec fn spec_field_tokens(self, krate: Seq<char>) -> Seq<char> {
        if self.omit {
            Seq::empty()
        } else {
            self.spec_dst_attrs() + self.vis@ + " "@ + self.spec_dst_name() + ": "@
                + self.spec_dst_type(krate)
        }
    }

    /// The name of the generated field.
    pub fn dst_name(&self) -> (res: &String)
        requires
            self.ident is Some || self.rename is Some,
        ensures
            res@ == self.spec_dst_name(),
    {
        match &self.rename {
            Some(name) => name,
            None => self.ident.as_ref().unwrap(),
        }
    }

    /// Appends the type of the generated field.
    pub fn push_dst_type(&self, tokens: &mut String, krate: &str)
        ensures
            final(tokens)@ == old(tokens)@ + self.spec_dst_type(krate@),
    {
        if self.transparent {
            tokens.append(self.ty.as_str());
        } else if let Some(ty) = &self.as_type {
            tokens.append(ty.as_str());
        } else if self.nested {
            tokens.append("<");
            tokens.append(self.ty.as_str());
            tokens.append(" as ");
            tokens.append(krate);
            tokens.append("::Partial>::Item");
        } else {
            tokens.append("Option<");
            tokens.append(self.ty.as_str());
            tokens.append(">");
        }
    }

    /// Appends the declaration of the generated field: its attributes, its
    /// visibility, its name and its type. An omitted field appends nothing.
    pub fn to_tokens(&self, tokens: &mut String, krate: &str)
        requires
            self.omit || self.ident is Some,
        ensures
            final(tokens)@ == old(tokens)@ + self.spec_field_tokens(krate@),
    {
        if self.omit {
            return;
        }
        let ghost base = tokens@;
        if !self.skip_attrs {
            push_attr_lines(tokens, &self.attrs);
        }
        push_meta_attrs(tokens, &self.additional_attrs);
        tokens.append(self.vis.as_str());
        tokens.append(" ");
        tokens.append(self.dst_name().as_str());
        tokens.append(": ");
        self.push_dst_type(tokens, krate);
        assert(tokens@ =~= base + self.spec_field_tokens(krate@));
    }
}

} // verus!
