use vstd::prelude::*;

verus! {

/// The attributes, each followed by a space, one after the other.
pub open spec fn spec_attr_lines(attrs: Seq<String>) -> Seq<char>
    decreases attrs.len(),
{
    if attrs.len() == 0 {
        Seq::empty()
    } else {
        spec_attr_lines(attrs.drop_last()) + attrs.last()@ + " "@
    }
}

/// The metas, each wrapped as an outer attribute `#[..]` and followed by a space.
pub open spec fn spec_meta_attrs(metas: Seq<String>) -> Seq<char>
    decreases metas.len(),
{
    if metas.len() == 0 {
        Seq::empty()
    } else {
        spec_meta_attrs(metas.drop_last()) + "#["@ + metas.last()@ + "] "@
    }
}

/// The paths separated by `, `.
pub open spec fn spec_comma_list(items: Seq<String>) -> Seq<char>
    decreases items.len(),
{
    if items.len() == 0 {
        Seq::empty()
    } else if items.len() == 1 {
        items[0]@
    } else {
        spec_comma_list(items.drop_last()) + ", "@ + items.last()@
    }
}

/// Appends every attribute followed by a space.
pub fn push_attr_lines(tokens: &mut String, attrs: &Vec<String>)
    ensures
        final(tokens)@ == old(tokens)@ + spec_attr_lines(attrs@),
{
    let ghost base = tokens@;
    let mut i: usize = 0;
    while i < attrs.len()
        invariant
            i <= attrs.len(),
            tokens@ == base + spec_attr_lines(attrs@.take(i as int)),
        decreases attrs.len() - i,
    {
        assert(attrs@.take(i + 1).drop_last() =~= attrs@.take(i as int));
        tokens.append(attrs[i].as_str());
        tokens.append(" ");
        i = i + 1;
    }
    assert(attrs@.take(i as int) =~= attrs@);
}

/// Appends every meta as an outer attribute `#[..]` followed by a space.
pub fn push_meta_attrs(tokens: &mut String, metas: &Vec<String>)
    ensures
        final(tokens)@ == old(tokens)@ + spec_meta_attrs(metas@),
{
    let ghost base = tokens@;
    let mut i: usize = 0;
    while i < metas.len()
        invariant
            i <= metas.len(),
            tokens@ == base + spec_meta_attrs(metas@.take(i as int)),
        decreases metas.len() - i,
    {
        assert(metas@.take(i + 1).drop_last() =~= metas@.take(i as int));
        tokens.append("#[");
        tokens.append(metas[i].as_str());
        tokens.append("] ");
        i = i + 1;
    }
    assert(metas@.take(i as int) =~= metas@);
}

/// Appends the items separated by `, `.
pub fn push_comma_list(tokens: &mut String, items: &Vec<String>)
    ensures
        final(tokens)@ == old(tokens)@ + spec_comma_list(items@),
{
    let ghost base = tokens@;
    let mut i: usize = 0;
    while i < items.len()
        invariant
            i <= items.len(),
            tokens@ == base + spec_comma_list(items@.take(i as int)),
        decreases items.len() - i,
    {
        assert(items@.take(i + 1).drop_last() =~= items@.take(i as int));
        if i > 0 {
            tokens.append(", ");
        }
        tokens.append(items[i].as_str());
        i = i + 1;
    }
    assert(items@.take(i as int) =~= items@);
}

} // verus!
