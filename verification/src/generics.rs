use vstd::prelude::*;

use crate::impl_partial::SplitGenerics;
use quote::ToTokens;

verus! {

/// The parameter text opens with `<`, then (after spaces) a letter or an apostrophe:
/// where such a text parses at all, its first parameter is a type, const or lifetime
/// parameter, so the parameter list is not empty.
pub open spec fn spec_opens_with_param(params: Seq<char>) -> bool {
    exists|k: int|
        1 <= k < params.len() && params[0] == '<' && (forall|j: int| 1 <= j < k ==> params[j] == ' ')
            && (('a' <= #[trigger] params[k] && params[k] <= 'z') || ('A' <= params[k] && params[k] <= 'Z')
            || params[k] == '\'')
}

/// The where text opens with the keyword `where`, then one or more spaces, then a
/// letter, an apostrophe or `<`: where such a text parses at all, the where clause
/// has at least one predicate, since syn's parser stops before a predicate only at
/// the end of input or at `{`, `,`, `;`, `:` or `=`.
pub open spec fn spec_opens_with_predicate(where_clause: Seq<char>) -> bool {
    exists|k: int|
        6 <= k < where_clause.len() && where_clause[0] == 'w' && where_clause[1] == 'h'
            && where_clause[2] == 'e' && where_clause[3] == 'r' && where_clause[4] == 'e'
            && (forall|j: int| 5 <= j < k ==> where_clause[j] == ' ')
            && (('a' <= #[trigger] where_clause[k] && where_clause[k] <= 'z') || ('A' <= where_clause[k]
            && where_clause[k] <= 'Z') || where_clause[k] == '\'' || where_clause[k] == '<')
}

/// What holds of every split that `syn` hands back, in every process: empty
/// parameters give empty impl parameters and type arguments, an empty where clause
/// gives an empty where piece, and the impl parameters are empty exactly when the
/// type arguments are (both printers write nothing for an empty parameter list, and
/// at least the angle brackets otherwise), and parameters that open with a
/// parameter give non-empty impl parameters and type arguments, and a where text
/// that opens with a predicate gives a non-empty where piece (the printer writes
/// `where` and the predicates whenever there is a predicate).
pub open spec fn spec_split_agrees(
    params: Seq<char>,
    where_clause: Seq<char>,
    g: (Seq<char>, Seq<char>, Seq<char>),
) -> bool {
    &&& params.len() == 0 ==> g.0.len() == 0 && g.1.len() == 0
    &&& where_clause.len() == 0 ==> g.2.len() == 0
    &&& (g.0.len() == 0 <==> g.1.len() == 0)
    &&& spec_opens_with_param(params) ==> g.0.len() > 0 && g.1.len() > 0
    &&& spec_opens_with_predicate(where_clause) ==> g.2.len() > 0
}

/// Calls `syn::parse_str` on both texts (as `syn::Generics` and as
/// `Option<syn::WhereClause>`) and then `syn::Generics::split_for_impl`, printing
/// each piece with `quote::ToTokens::to_token_stream`: the impl parameters, the
/// type arguments and the where clause. `None` where either text does not parse.
///
/// Both the parse and the printed text come from `proc_macro2`, which uses the
/// compiler's lexer and printer inside a procedural macro and its own outside one,
/// so the same texts need not give the same pieces in every process. The contract
/// claims only what `syn`'s source fixes in both: two empty texts parse (an empty
/// `Generics` and no where clause), and every split that comes back agrees with
/// `spec_split_agrees`. Which pieces come back for other texts is left unsaid.
#[verifier::external_body]
pub(crate) fn split_for_impl(params: &str, where_clause: &str) -> (res: Option<SplitGenerics>)
    ensures
        params@.len() == 0 && where_clause@.len() == 0 ==> res is Some,
        res matches Some(g) ==> spec_split_agrees(params@, where_clause@, g.spec_parts()),
{
    let mut generics: syn::Generics = syn::parse_str(params).ok()?;
    generics.where_clause = syn::parse_str::<Option<syn::WhereClause>>(where_clause).ok()?;
    let (impl_generics, ty_generics, where_part) = generics.split_for_impl();
    Some(SplitGenerics {
        impl_generics: impl_generics.to_token_stream().to_string(),
        ty_generics: ty_generics.to_token_stream().to_string(),
        where_clause: where_part.to_token_stream().to_string(),
    })
}

} // verus!
