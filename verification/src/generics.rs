//! The generic-parameter list of the derived implementation.

use crate::tokens::{is_plain_ident, stream_span, stream_tokens, Token};
use proc_macro2::{Span, TokenStream};
use quote::ToTokens;
use syn::Generics;
use vstd::prelude::*;

verus! {

/// `syn::Generics`: the generic parameters of a declaration, with its
/// where-clause. Of its inside nothing is known but what the functions of
/// this module say.
#[verifier::external_type_specification]
#[verifier::external_body]
pub struct ExGenerics(syn::Generics);

/// The name of the lifetime that the derived implementation adds.
pub const LIFETIME: &'static str = "'tryfrom_str_lifetime";

/// The parameters that a generic-parameter list holds, in their order, each as
/// the tokens that it is written with.
pub uninterp spec fn generic_params(generics: Generics) -> Seq<Seq<Token>>;

/// The tokens of the where-clause that goes with a generic-parameter list;
/// none where it has no where-clause.
pub uninterp spec fn where_clause_tokens(generics: Generics) -> Seq<Token>;

/// The tokens with which a generic-parameter list stands behind `impl`.
pub uninterp spec fn impl_generics_tokens(generics: Generics) -> Seq<Token>;

/// A lifetime's name: an apostrophe and a plain word.
pub open spec fn is_lifetime_symbol(symbol: Seq<char>) -> bool {
    symbol.len() > 0 && symbol[0] == '\'' && is_plain_ident(symbol.skip(1))
}

/// The tokens of a lifetime parameter without bounds.
pub open spec fn lifetime_tokens(symbol: Seq<char>) -> Seq<Token> {
    seq![Token::Punct { ch: '\'', joint: true }, Token::Ident { name: symbol.skip(1) }]
}

/// The tokens of the lifetime that the derived implementation adds.
pub open spec fn added_lifetime() -> Seq<Token> {
    seq![
        Token::Punct { ch: '\'', joint: true },
        Token::Ident { name: "tryfrom_str_lifetime"@ },
    ]
}

/// Whether `derived` is the parameter list of an implementation that is
/// derived from one with the parameter list `declared`: the added lifetime
/// first, then the parameters of `declared` in their order, and no
/// where-clause.
pub open spec fn is_derived_from(derived: Generics, declared: Generics) -> bool {
    &&& generic_params(derived) == seq![added_lifetime()] + generic_params(declared)
    &&& where_clause_tokens(derived).len() == 0
}

/// `ToTokens::to_token_stream` of a generic-parameter list: its tokens as
/// they stand in a declaration. Nothing is claimed of them.
#[verifier::external_body]
fn generics_tokens(generics: &Generics) -> TokenStream {
    generics.to_token_stream()
}

/// `Punctuated::len` of the parameters: how many there are.
#[verifier::external_body]
fn param_count(generics: &Generics) -> (count: usize)
    ensures
        count == generic_params(*generics).len(),
{
    generics.params.len()
}

/// A `syn::Generics` with the angle brackets of `generics` and nothing else:
/// no parameter and no where-clause.
#[verifier::external_body]
fn angle_brackets(generics: &Generics) -> (bare: Generics)
    ensures
        generic_params(bare).len() == 0,
        where_clause_tokens(bare).len() == 0,
{
    Generics { lt_token: generics.lt_token, gt_token: generics.gt_token, ..Generics::default() }
}

/// `Punctuated::push` of the lifetime parameter that `LifetimeParam::new`
/// makes of `Lifetime::new(symbol, span)`: it becomes the last parameter,
/// behind a comma where there was a parameter before it. `Lifetime::new`
/// panics on a symbol that is no lifetime name.
#[verifier::external_body]
fn push_lifetime(generics: &mut Generics, symbol: &str, span: Span)
    requires
        is_lifetime_symbol(symbol@),
    ensures
        generic_params(*final(generics)) == generic_params(*old(generics)).push(
            lifetime_tokens(symbol@),
        ),
        where_clause_tokens(*final(generics)) == where_clause_tokens(*old(generics)),
{
    let lifetime = syn::LifetimeParam::new(syn::Lifetime::new(symbol, span));
    generics.params.push(syn::GenericParam::Lifetime(lifetime));
}

/// `Punctuated::push` of a clone of the parameter of `from` at `index`: it
/// becomes the last parameter, behind a comma where there was a parameter
/// before it. Indexing panics beyond the last parameter.
#[verifier::external_body]
fn push_param(generics: &mut Generics, from: &Generics, index: usize)
    requires
        index < generic_params(*from).len(),
    ensures
        generic_params(*final(generics)) == generic_params(*old(generics)).push(
            generic_params(*from)[index as int],
        ),
        where_clause_tokens(*final(generics)) == where_clause_tokens(*old(generics)),
{
    generics.params.push(from.params[index].clone());
}

/// `Generics::split_for_impl`, first part, as tokens: the list as it stands
/// behind `impl`.
#[verifier::external_body]
pub(crate) fn impl_generics_stream(generics: &Generics) -> (stream: TokenStream)
    ensures
        stream_tokens(stream) == impl_generics_tokens(*generics),
{
    generics.split_for_impl().0.to_token_stream()
}

/// `Generics::split_for_impl`, last part, as tokens: the where-clause, or
/// nothing.
#[verifier::external_body]
pub(crate) fn where_clause_stream(generics: &Generics) -> (stream: TokenStream)
    ensures
        stream_tokens(stream) == where_clause_tokens(*generics),
{
    generics.split_for_impl().2.to_token_stream()
}

/// The parameter list of the derived implementation: the added lifetime, then
/// every parameter of `def_generics` as it is and in its place. The
/// where-clause is not taken along.
pub fn prefix_impl_lifetime(def_generics: &Generics) -> (derived: Generics)
    ensures
        is_derived_from(derived, *def_generics),
{
    let mut impl_params = angle_brackets(def_generics);
    proof {
        reveal_strlit("'tryfrom_str_lifetime");
        reveal_strlit("tryfrom_str_lifetime");
        assert(LIFETIME@.skip(1) == "tryfrom_str_lifetime"@);
    }
    let span = stream_span(&generics_tokens(def_generics));
    push_lifetime(&mut impl_params, LIFETIME, span);
    let count = param_count(def_generics);
    let mut index: usize = 0;
    while index < count
        invariant
            index <= count,
            count == generic_params(*def_generics).len(),
            generic_params(impl_params) == seq![added_lifetime()] + generic_params(
                *def_generics,
            ).take(index as int),
            where_clause_tokens(impl_params).len() == 0,
        decreases count - index,
    {
        push_param(&mut impl_params, def_generics, index);
        index += 1;
    }
    assert(generic_params(*def_generics).take(count as int) == generic_params(*def_generics));
    impl_params
}

/// In a derived parameter list the added lifetime stands first, and behind
/// it stands every parameter of the declared list, in its place and unchanged:
/// there is one parameter more, and no other.
pub proof fn lemma_derived_params(derived: Generics, declared: Generics)
    requires
        is_derived_from(derived, declared),
    ensures
        generic_params(derived).len() == generic_params(declared).len() + 1,
        generic_params(derived)[0] == added_lifetime(),
        forall|i: int|
            0 <= i < generic_params(declared).len() ==> #[trigger] generic_params(derived)[i + 1]
                == generic_params(declared)[i],
{
}

} // verus!
