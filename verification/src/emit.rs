//! The tokens of the derived implementation.
//!
//! Behind the annotated `impl` block stands
//!
//! ```text
//! impl <generics> ::std::convert::TryFrom<&'tryfrom_str_lifetime str> for <subject> <where-clause> {
//!     type Error = <Self as ::std::str::FromStr>::Err;
//!
//!     fn try_from(s: &'tryfrom_str_lifetime str) -> Result<Self, Self::Error> {
//!         use ::std::str::FromStr;
//!
//!         Self::from_str(s)
//!     }
//! }
//! ```
//!
//! The spec functions of this module say which tokens that is, and the
//! executable functions beside them write those tokens.

use crate::generics::added_lifetime;
use crate::tokens::{
    append_group, append_ident, append_punct, append_stream, is_plain_ident, new_stream,
    stream_tokens, Delimiter, Token,
};
use proc_macro2::TokenStream;
use vstd::prelude::*;

verus! {

/// A word.
pub open spec fn ident(name: &str) -> Token {
    Token::Ident { name: name@ }
}

/// A punctuation character that stands alone.
pub open spec fn punct(ch: char) -> Token {
    Token::Punct { ch, joint: false }
}

/// A punctuation character that the next one continues.
pub open spec fn joint(ch: char) -> Token {
    Token::Punct { ch, joint: true }
}

/// A bracketed stream.
pub open spec fn group(delimiter: Delimiter, stream: Seq<Token>) -> Token {
    Token::Group { delimiter, stream }
}

/// `::`
pub open spec fn colon2() -> Seq<Token> {
    seq![joint(':'), punct(':')]
}

/// `::first::second::third`
pub open spec fn rooted_path(first: &str, second: &str, third: &str) -> Seq<Token> {
    colon2() + seq![ident(first)] + colon2() + seq![ident(second)] + colon2() + seq![ident(third)]
}

/// `&'tryfrom_str_lifetime str`
pub open spec fn borrowed_str() -> Seq<Token> {
    seq![punct('&')] + added_lifetime() + seq![ident("str")]
}

/// `::std::convert::TryFrom<&'tryfrom_str_lifetime str>`
pub open spec fn try_from_str() -> Seq<Token> {
    rooted_path("std", "convert", "TryFrom") + seq![punct('<')] + borrowed_str() + seq![punct('>')]
}

/// `type Error = <Self as ::std::str::FromStr>::Err;`
pub open spec fn error_type() -> Seq<Token> {
    seq![ident("type"), ident("Error"), punct('='), punct('<'), ident("Self"), ident("as")]
        + rooted_path("std", "str", "FromStr") + seq![punct('>')] + colon2() + seq![
        ident("Err"),
        punct(';'),
    ]
}

/// `use ::std::str::FromStr; Self::from_str(s)`
pub open spec fn delegation() -> Seq<Token> {
    seq![ident("use")] + rooted_path("std", "str", "FromStr") + seq![punct(';'), ident("Self")]
        + colon2() + seq![
        ident("from_str"),
        group(Delimiter::Parenthesis, seq![ident("s")]),
    ]
}

/// `s: &'tryfrom_str_lifetime str`
pub open spec fn parameter() -> Seq<Token> {
    seq![ident("s"), punct(':')] + borrowed_str()
}

/// `Result<Self, Self::Error>`
pub open spec fn result_type() -> Seq<Token> {
    seq![ident("Result"), punct('<'), ident("Self"), punct(','), ident("Self")] + colon2() + seq![
        ident("Error"),
        punct('>'),
    ]
}

/// `fn try_from(s: &'tryfrom_str_lifetime str) -> Result<Self, Self::Error> { ... }`
pub open spec fn try_from_fn() -> Seq<Token> {
    seq![
        ident("fn"),
        ident("try_from"),
        group(Delimiter::Parenthesis, parameter()),
        joint('-'),
        punct('>'),
    ] + result_type() + seq![group(Delimiter::Brace, delegation())]
}

/// What stands between the braces of the derived implementation.
pub open spec fn impl_body() -> Seq<Token> {
    error_type() + try_from_fn()
}

/// The derived implementation, for a generic-parameter list, a subject type
/// and a where-clause that are given as they are written.
pub open spec fn conversion_impl(
    generics: Seq<Token>,
    subject: Seq<Token>,
    where_clause: Seq<Token>,
) -> Seq<Token> {
    seq![ident("impl")] + generics + try_from_str() + seq![ident("for")] + subject + where_clause
        + seq![group(Delimiter::Brace, impl_body())]
}

/// What the transformation gives back: the declaration, then the derived
/// implementation.
pub open spec fn expansion(
    declaration: Seq<Token>,
    generics: Seq<Token>,
    subject: Seq<Token>,
    where_clause: Seq<Token>,
) -> Seq<Token> {
    declaration + conversion_impl(generics, subject, where_clause)
}

fn append_colon2(out: &mut TokenStream)
    ensures
        stream_tokens(*final(out)) == stream_tokens(*old(out)) + colon2(),
{
    append_punct(out, ':', true);
    append_punct(out, ':', false);
}

fn append_rooted_path(out: &mut TokenStream, first: &str, second: &str, third: &str)
    requires
        is_plain_ident(first@),
        is_plain_ident(second@),
        is_plain_ident(third@),
    ensures
        stream_tokens(*final(out)) == stream_tokens(*old(out)) + rooted_path(first, second, third),
{
    append_colon2(out);
    append_ident(out, first);
    append_colon2(out);
    append_ident(out, second);
    append_colon2(out);
    append_ident(out, third);
}

fn append_borrowed_str(out: &mut TokenStream)
    ensures
        stream_tokens(*final(out)) == stream_tokens(*old(out)) + borrowed_str(),
{
    proof {
        reveal_strlit("tryfrom_str_lifetime");
        reveal_strlit("str");
    }
    append_punct(out, '&', false);
    append_punct(out, '\'', true);
    append_ident(out, "tryfrom_str_lifetime");
    append_ident(out, "str");
}

fn append_try_from_str(out: &mut TokenStream)
    ensures
        stream_tokens(*final(out)) == stream_tokens(*old(out)) + try_from_str(),
{
    proof {
        reveal_strlit("std");
        reveal_strlit("convert");
        reveal_strlit("TryFrom");
    }
    append_rooted_path(out, "std", "convert", "TryFrom");
    append_punct(out, '<', false);
    append_borrowed_str(out);
    append_punct(out, '>', false);
}

fn append_error_type(out: &mut TokenStream)
    ensures
        stream_tokens(*final(out)) == stream_tokens(*old(out)) + error_type(),
{
    proof {
        reveal_strlit("type");
        reveal_strlit("Error");
        reveal_strlit("Self");
        reveal_strlit("as");
        reveal_strlit("std");
        reveal_strlit("str");
        reveal_strlit("FromStr");
        reveal_strlit("Err");
    }
    append_ident(out, "type");
    append_ident(out, "Error");
    append_punct(out, '=', false);
    append_punct(out, '<', false);
    append_ident(out, "Self");
    append_ident(out, "as");
    append_rooted_path(out, "std", "str", "FromStr");
    append_punct(out, '>', false);
    append_colon2(out);
    append_ident(out, "Err");
    append_punct(out, ';', false);
}

fn delegation_stream() -> (out: TokenStream)
    ensures
        stream_tokens(out) == delegation(),
{
    proof {
        reveal_strlit("use");
        reveal_strlit("std");
        reveal_strlit("str");
        reveal_strlit("FromStr");
        reveal_strlit("Self");
        reveal_strlit("from_str");
        reveal_strlit("s");
    }
    let mut argument = new_stream();
    append_ident(&mut argument, "s");
    let mut out = new_stream();
    append_ident(&mut out, "use");
    append_rooted_path(&mut out, "std", "str", "FromStr");
    append_punct(&mut out, ';', false);
    append_ident(&mut out, "Self");
    append_colon2(&mut out);
    append_ident(&mut out, "from_str");
    append_group(&mut out, Delimiter::Parenthesis, argument);
    out
}

fn parameter_stream() -> (out: TokenStream)
    ensures
        stream_tokens(out) == parameter(),
{
    proof {
        reveal_strlit("s");
    }
    let mut out = new_stream();
    append_ident(&mut out, "s");
    append_punct(&mut out, ':', false);
    append_borrowed_str(&mut out);
    out
}

fn append_result_type(out: &mut TokenStream)
    ensures
        stream_tokens(*final(out)) == stream_tokens(*old(out)) + result_type(),
{
    proof {
        reveal_strlit("Result");
        reveal_strlit("Self");
        reveal_strlit("Error");
    }
    append_ident(out, "Result");
    append_punct(out, '<', false);
    append_ident(out, "Self");
    append_punct(out, ',', false);
    append_ident(out, "Self");
    append_colon2(out);
    append_ident(out, "Error");
    append_punct(out, '>', false);
}

fn append_try_from_fn(out: &mut TokenStream)
    ensures
        stream_tokens(*final(out)) == stream_tokens(*old(out)) + try_from_fn(),
{
    proof {
        reveal_strlit("fn");
        reveal_strlit("try_from");
    }
    append_ident(out, "fn");
    append_ident(out, "try_from");
    append_group(out, Delimiter::Parenthesis, parameter_stream());
    append_punct(out, '-', true);
    append_punct(out, '>', false);
    append_result_type(out);
    append_group(out, Delimiter::Brace, delegation_stream());
}

fn impl_body_stream() -> (out: TokenStream)
    ensures
        stream_tokens(out) == impl_body(),
{
    let mut out = new_stream();
    append_error_type(&mut out);
    append_try_from_fn(&mut out);
    out
}

/// Writes the declaration and, behind it, the derived implementation with the
/// generic-parameter list, the subject type and the where-clause that are
/// handed in.
pub fn emit(
    declaration: &TokenStream,
    generics: &TokenStream,
    subject: &TokenStream,
    where_clause: &TokenStream,
) -> (out: TokenStream)
    ensures
        stream_tokens(out) == expansion(
            stream_tokens(*declaration),
            stream_tokens(*generics),
            stream_tokens(*subject),
            stream_tokens(*where_clause),
        ),
{
    proof {
        reveal_strlit("impl");
        reveal_strlit("for");
    }
    let mut out = new_stream();
    append_stream(&mut out, declaration);
    append_ident(&mut out, "impl");
    append_stream(&mut out, generics);
    append_try_from_str(&mut out);
    append_ident(&mut out, "for");
    append_stream(&mut out, subject);
    append_stream(&mut out, where_clause);
    append_group(&mut out, Delimiter::Brace, impl_body_stream());
    out
}

} // verus!
