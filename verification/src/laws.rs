use vstd::prelude::*;

use crate::derive_receiver::{spec_kept, spec_struct_fields, DeriveReceiver};
use crate::field_receiver::FieldReceiver;
use crate::impl_partial::{spec_applicator, spec_applicator_tokens, spec_in_is_some_check, Applicator};
use crate::text::{spec_attr_lines, spec_comma_list};

verus! {

/// A field that passes validation has a name, uses at most one of
/// `transparent`, `as_type` and `nested`, never combines `apply_with` with
/// `nested`, and, when omitted, carries none of `rename`, `transparent`,
/// `as_type` and `nested`.
pub proof fn law_valid_field_options(f: FieldReceiver)
    requires
        f.spec_valid(),
    ensures
        f.ident is Some,
        f.spec_type_option_count() <= 1,
        !(f.apply_with is Some && f.nested),
        f.omit ==> f.rename is None && !f.transparent && f.as_type is None && !f.nested,
{
    if f.ident is None {
        assert(f.spec_violations()[0] == crate::field_receiver::FieldError::UnnamedField);
    }
    if f.omit && (f.rename is Some || f.transparent || f.as_type is Some || f.nested) {
        assert(f.spec_violations().len() > 0);
    }
    if f.spec_type_option_count() > 1 {
        assert(f.spec_violations().len() > 0);
    }
    if f.apply_with is Some && f.nested {
        assert(f.spec_violations().len() > 0);
    }
}

/// A field with none of `transparent`, `as_type` and `nested` becomes an
/// `Option` of its type, under its `rename` or else under its own name.
pub proof fn law_plain_field_becomes_option(f: FieldReceiver, krate: Seq<char>)
    requires
        !f.transparent,
        f.as_type is None,
        !f.nested,
    ensures
        f.spec_dst_type(krate) == "Option<"@ + f.ty@ + ">"@,
        f.rename is None ==> f.spec_dst_name() == f.spec_src_name(),
{
}

/// An omitted field leaves no trace in the partial struct.
pub proof fn law_omitted_field_leaves_no_trace(f: FieldReceiver, krate: Seq<char>)
    requires
        f.omit,
    ensures
        f.spec_field_tokens(krate) == Seq::<char>::empty(),
{
}

/// Between two partial types, no field calls its `apply_with` expression: the
/// expression is written for the original type's fields only.
pub proof fn law_partial_to_partial_never_custom(f: FieldReceiver)
    ensures
        spec_applicator(f, true) != Applicator::Custom,
{
}

/// Every field counts exactly once in the result of `apply_some`: it is in the
/// up-front `is_some` check exactly when its applicator is the plain copy, and
/// every other applicator or-s its own result in.
pub proof fn law_each_field_counted_once(f: FieldReceiver, partial_to_partial: bool)
    ensures
        spec_in_is_some_check(f) <==> spec_applicator(f, partial_to_partial) == Applicator::IfSome,
{
}

/// The declarations of the given fields, each followed by `, `.
pub open spec fn spec_declarations(fields: Seq<&FieldReceiver>, krate: Seq<char>) -> Seq<char>
    decreases fields.len(),
{
    if fields.len() == 0 {
        Seq::empty()
    } else {
        spec_declarations(fields.drop_last(), krate) + fields.last().spec_field_tokens(krate) + ", "@
    }
}

/// The partial struct declares exactly the fields that are not omitted, in
/// order: the same fields that both impls apply.
pub proof fn law_struct_declares_applied_fields(fields: Seq<FieldReceiver>, krate: Seq<char>)
    ensures
        spec_struct_fields(fields, krate) == spec_declarations(spec_kept(fields), krate),
    decreases fields.len(),
{
    if fields.len() > 0 {
        law_struct_declares_applied_fields(fields.drop_last(), krate);
        if !fields.last().omit {
            let kept = spec_kept(fields);
            assert(kept.drop_last() =~= spec_kept(fields.drop_last()));
        }
    }
}

/// The rules are all there is to validity: a field that is named, whose `omit`
/// comes with none of `rename`, `transparent`, `as_type` and `nested`, that uses
/// at most one of `transparent`, `as_type` and `nested`, and that does not combine
/// `apply_with` with `nested`, breaks no rule, so `validate` hands it back.
pub proof fn law_rules_suffice_for_validity(f: FieldReceiver)
    requires
        f.ident is Some,
        f.omit ==> f.rename is None && !f.transparent && f.as_type is None && !f.nested,
        f.spec_type_option_count() <= 1,
        !(f.apply_with is Some && f.nested),
    ensures
        f.spec_valid(),
{
    assert(f.spec_violations() =~= Seq::<crate::field_receiver::FieldError>::empty());
}

/// Delegation to a nested partial, and between two partial types for an
/// `apply_with` field, always reaches `Partial` through the configured crate path:
/// `will_apply_some = krate::Partial::apply_some(&mut self.src, partial.dst) || will_apply_some;`.
pub proof fn law_delegation_uses_crate_path(f: FieldReceiver, krate: Seq<char>, partial_to_partial: bool)
    requires
        f.nested || (f.apply_with is Some && partial_to_partial),
    ensures
        spec_applicator_tokens(f, krate, partial_to_partial) == "will_apply_some = "@ + krate
            + "::Partial::apply_some(&mut self."@ + f.spec_src_name() + ", partial."@
            + f.spec_dst_name() + ") || will_apply_some; "@,
{
}

/// Unless `skip_attributes` is set, the declaration of a kept field starts with all
/// of the field's own attributes, in order, whatever its type option.
pub proof fn law_own_attributes_come_first(f: FieldReceiver, krate: Seq<char>)
    requires
        !f.skip_attrs,
        !f.omit,
    ensures
        spec_attr_lines(f.attrs@).len() <= f.spec_field_tokens(krate).len(),
        f.spec_field_tokens(krate).subrange(0, spec_attr_lines(f.attrs@).len() as int)
            == spec_attr_lines(f.attrs@),
{
    let a = spec_attr_lines(f.attrs@);
    let t = f.spec_field_tokens(krate);
    let rest = crate::text::spec_meta_attrs(f.additional_attrs@) + f.vis@ + " "@ + f.spec_dst_name()
        + ": "@ + f.spec_dst_type(krate);
    assert(t =~= a + rest);
    assert(t.subrange(0, a.len() as int) =~= a);
}

/// Where the item with the given index starts in the items joined by `, `.
pub open spec fn spec_join_offset(items: Seq<String>, i: int) -> int
    decreases i,
{
    if i <= 0 {
        0
    } else {
        spec_join_offset(items, i - 1) + items[i - 1]@.len() + 2
    }
}

/// The text is every item, in order, with `, ` between two neighbours and nothing else.
pub open spec fn spec_joined_by_comma(text: Seq<char>, items: Seq<String>) -> bool {
    &&& items.len() > 0
    &&& text.len() == spec_join_offset(items, items.len() - 1) + items.last()@.len()
    &&& forall|i: int| #![trigger spec_join_offset(items, i)]
        0 <= i < items.len() ==> text.subrange(
            spec_join_offset(items, i),
            spec_join_offset(items, i) + items[i]@.len(),
        ) == items[i]@
    &&& forall|i: int| #![trigger spec_join_offset(items, i)]
        0 <= i < items.len() - 1 ==> text.subrange(
            spec_join_offset(items, i) + items[i]@.len(),
            spec_join_offset(items, i) + items[i]@.len() + 2,
        ) == seq![',', ' ']
}

/// Offsets only depend on the items before them.
proof fn lemma_join_offset_prefix(items: Seq<String>, i: int)
    requires
        items.len() > 0,
        0 <= i <= items.len() - 1,
    ensures
        spec_join_offset(items.drop_last(), i) == spec_join_offset(items, i),
    decreases i,
{
    if i > 0 {
        lemma_join_offset_prefix(items, i - 1);
        assert(items.drop_last()[i - 1] == items[i - 1]);
    }
}

/// Offsets are never negative.
proof fn lemma_join_offset_nonneg(items: Seq<String>, i: int)
    ensures
        spec_join_offset(items, i) >= 0,
    decreases i,
{
    if i > 0 {
        lemma_join_offset_nonneg(items, i - 1);
    }
}

/// Offsets grow: each item and its separator end where the next item starts.
proof fn lemma_join_offset_grows(items: Seq<String>, i: int, j: int)
    requires
        0 <= i < j,
    ensures
        spec_join_offset(items, i) + items[i]@.len() + 2 <= spec_join_offset(items, j),
    decreases j,
{
    if j > i + 1 {
        lemma_join_offset_grows(items, i, j - 1);
    }
}

/// The text that `spec_comma_list` builds is the items joined by `, `.
proof fn lemma_comma_list_joined(items: Seq<String>)
    requires
        items.len() > 0,
    ensures
        spec_joined_by_comma(spec_comma_list(items), items),
    decreases items.len(),
{
    let text = spec_comma_list(items);
    if items.len() == 1 {
        assert(text == items[0]@);
        assert(text.subrange(0, items[0]@.len() as int) =~= items[0]@);
    } else {
        let p = items.drop_last();
        let n = items.len() as int;
        let prev = spec_comma_list(p);
        lemma_comma_list_joined(p);
        reveal_strlit(", ");
        assert(", "@ =~= seq![',', ' ']);
        assert(text == prev + ", "@ + items.last()@);
        lemma_join_offset_prefix(items, n - 2);
        lemma_join_offset_prefix(items, n - 1);
        assert(p[n - 2] == items[n - 2]);
        assert(prev.len() == spec_join_offset(items, n - 2) + items[n - 2]@.len());
        assert(spec_join_offset(items, n - 1) == prev.len() + 2);
        assert forall|i: int| #![trigger spec_join_offset(items, i)] 0 <= i < items.len() implies text.subrange(
            spec_join_offset(items, i),
            spec_join_offset(items, i) + items[i]@.len(),
        ) == items[i]@ by {
            lemma_join_offset_nonneg(items, i);
            if i < n - 1 {
                lemma_join_offset_prefix(items, i);
                assert(p[i] == items[i]);
                assert(spec_join_offset(p, i) == spec_join_offset(items, i));
                if i < n - 2 {
                    lemma_join_offset_grows(items, i, n - 2);
                }
                assert(prev.subrange(spec_join_offset(p, i), spec_join_offset(p, i) + p[i]@.len()) == p[i]@);
                assert(text.subrange(spec_join_offset(items, i), spec_join_offset(items, i) + items[i]@.len())
                    =~= prev.subrange(spec_join_offset(items, i), spec_join_offset(items, i) + items[i]@.len()));
            } else {
                assert(text.subrange(spec_join_offset(items, i), spec_join_offset(items, i) + items[i]@.len())
                    =~= items.last()@);
            }
        }
        assert forall|i: int| #![trigger spec_join_offset(items, i)] 0 <= i < items.len() - 1 implies text.subrange(
            spec_join_offset(items, i) + items[i]@.len(),
            spec_join_offset(items, i) + items[i]@.len() + 2,
        ) == seq![',', ' '] by {
            lemma_join_offset_nonneg(items, i);
            lemma_join_offset_prefix(items, i);
            assert(p[i] == items[i]);
            if i < n - 2 {
                lemma_join_offset_grows(items, i, n - 2);
                lemma_join_offset_prefix(items, i + 1);
                if i + 1 < n - 2 {
                    lemma_join_offset_grows(items, i + 1, n - 2);
                }
                assert(spec_join_offset(items, i + 1) == spec_join_offset(items, i) + items[i]@.len() + 2);
                assert(spec_join_offset(p, i) == spec_join_offset(items, i));
                assert(prev.subrange(
                    spec_join_offset(p, i) + p[i]@.len(),
                    spec_join_offset(p, i) + p[i]@.len() + 2,
                ) == seq![',', ' ']);
                assert(text.subrange(spec_join_offset(items, i) + items[i]@.len(), spec_join_offset(items, i) + items[i]@.len() + 2)
                    =~= prev.subrange(spec_join_offset(items, i) + items[i]@.len(), spec_join_offset(items, i) + items[i]@.len() + 2));
            } else {
                assert(text.subrange(spec_join_offset(items, i) + items[i]@.len(), spec_join_offset(items, i) + items[i]@.len() + 2)
                    =~= seq![',', ' ']);
            }
        }
    }
}

/// A non-empty derive list is written whole: the partial struct's derive attribute
/// is `#[derive(` and `)] ` around every listed trait, in order, joined by `, `.
pub proof fn law_derive_lists_every_trait(d: DeriveReceiver)
    requires
        d.derive@.len() > 0,
    ensures
        exists|m: Seq<char>| d.spec_derive_attr() == "#[derive("@ + m + ")] "@
            && #[trigger] spec_joined_by_comma(m, d.derive@),
{
    lemma_comma_list_joined(d.derive@);
    assert(d.spec_derive_attr() == "#[derive("@ + spec_comma_list(d.derive@) + ")] "@);
}

} // verus!
