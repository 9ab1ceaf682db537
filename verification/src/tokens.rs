//! Token streams as sequences of token trees.
//!
//! A `proc_macro2::TokenStream` is carried through the library as it is. The
//! contracts speak of it through [`stream_tokens`], the sequence of token trees
//! that it holds, each without its source location.

use quote::TokenStreamExt;
use syn::spanned::Spanned;
use vstd::prelude::*;

verus! {

/// `proc_macro2::TokenStream`: a stream of token trees. Of its inside nothing
/// is known but what the functions of this module say.
#[verifier::external_type_specification]
#[verifier::external_body]
pub struct ExTokenStream(proc_macro2::TokenStream);

/// `proc_macro2::Span`: a place in the source. It is carried and compared,
/// never read.
#[verifier::external_type_specification]
#[verifier::external_body]
pub struct ExSpan(proc_macro2::Span);

/// The brackets round a delimited group of tokens.
#[derive(Clone, Copy, Debug, PartialEq, Eq, Structural)]
pub enum Delimiter {
    /// `( ... )`
    Parenthesis,
    /// `{ ... }`
    Brace,
    /// `[ ... ]`
    Bracket,
    /// No visible brackets.
    Invisible,
}

/// One token tree, without its source location.
pub ghost enum Token {
    /// A word: an identifier or a keyword.
    Ident { name: Seq<char> },
    /// One punctuation character; `joint` where the next token continues the
    /// same operator, as the first `:` of `::` or the `'` of a lifetime.
    Punct { ch: char, joint: bool },
    /// A literal, as it is written.
    Literal { text: Seq<char> },
    /// A bracketed stream.
    Group { delimiter: Delimiter, stream: Seq<Token> },
}

/// The token trees that a stream holds, first to last.
pub uninterp spec fn stream_tokens(stream: proc_macro2::TokenStream) -> Seq<Token>;

/// The source location that the tokens of a stream cover.
pub uninterp spec fn stream_location(stream: proc_macro2::TokenStream) -> proc_macro2::Span;

/// The text that a stream prints as.
pub uninterp spec fn stream_rendering(stream: proc_macro2::TokenStream) -> Seq<char>;

/// An ASCII letter.
pub open spec fn is_ascii_letter(c: char) -> bool {
    ('a' <= c && c <= 'z') || ('A' <= c && c <= 'Z')
}

/// A character that may follow the first one of a plain word.
pub open spec fn is_word_char(c: char) -> bool {
    is_ascii_letter(c) || ('0' <= c && c <= '9') || c == '_'
}

/// A word of ASCII letters, digits and underscores that starts with a
/// letter: every such word is an identifier or a keyword.
pub open spec fn is_plain_ident(name: Seq<char>) -> bool {
    &&& name.len() > 0
    &&& is_ascii_letter(name[0])
    &&& forall|i: int| 0 < i < name.len() ==> is_word_char(#[trigger] name[i])
}

/// The characters that can stand as punctuation in a token stream.
pub open spec fn is_punct_char(c: char) -> bool {
    c == '!' || c == '#' || c == '$' || c == '%' || c == '&' || c == '\'' || c == '*' || c == '+'
        || c == ',' || c == '-' || c == '.' || c == '/' || c == ':' || c == ';' || c == '<'
        || c == '=' || c == '>' || c == '?' || c == '@' || c == '^' || c == '|' || c == '~'
}

/// `TokenStream::new`: a stream that holds no token tree.
#[verifier::external_body]
pub(crate) fn new_stream() -> (stream: proc_macro2::TokenStream)
    ensures
        stream_tokens(stream) == Seq::<Token>::empty(),
{
    proc_macro2::TokenStream::new()
}

/// `TokenStream::is_empty`: true exactly where the stream holds no token tree.
#[verifier::external_body]
pub(crate) fn stream_is_empty(stream: &proc_macro2::TokenStream) -> (empty: bool)
    ensures
        empty == (stream_tokens(*stream).len() == 0),
{
    stream.is_empty()
}

/// `Spanned::span` of a stream: the source location that its tokens cover.
#[verifier::external_body]
pub(crate) fn stream_span(stream: &proc_macro2::TokenStream) -> (span: proc_macro2::Span)
    ensures
        span == stream_location(*stream),
{
    stream.span()
}

/// `ToString::to_string` of a stream: the text that its `Display` prints.
#[verifier::external_body]
pub(crate) fn stream_text(stream: &proc_macro2::TokenStream) -> (text: String)
    ensures
        text@ == stream_rendering(*stream),
{
    stream.to_string()
}

/// `Extend<TokenStream>` with a copy of `more`: the token trees of `more`
/// are added behind those that the stream holds, in their order.
#[verifier::external_body]
pub(crate) fn append_stream(stream: &mut proc_macro2::TokenStream, more: &proc_macro2::TokenStream)
    ensures
        stream_tokens(*final(stream)) == stream_tokens(*old(stream)) + stream_tokens(*more),
{
    stream.extend(std::iter::once(more.clone()));
}

/// `TokenStreamExt::append` of `Ident::new(name, Span::call_site())`: one word
/// is added at the end. `Ident::new` panics on a string that is neither an
/// identifier nor a keyword, so only plain words are admitted.
#[verifier::external_body]
pub(crate) fn append_ident(stream: &mut proc_macro2::TokenStream, name: &str)
    requires
        is_plain_ident(name@),
    ensures
        stream_tokens(*final(stream)) == stream_tokens(*old(stream)).push(
            Token::Ident { name: name@ },
        ),
{
    stream.append(proc_macro2::Ident::new(name, proc_macro2::Span::call_site()));
}

/// `TokenStreamExt::append` of `Punct::new(ch, spacing)`, with `Spacing::Joint`
/// for `joint` and `Spacing::Alone` otherwise: one punctuation character is
/// added at the end. `Punct::new` panics on any other character than those of
/// [`is_punct_char`].
#[verifier::external_body]
pub(crate) fn append_punct(stream: &mut proc_macro2::TokenStream, ch: char, joint: bool)
    requires
        is_punct_char(ch),
    ensures
        stream_tokens(*final(stream)) == stream_tokens(*old(stream)).push(
            Token::Punct { ch, joint },
        ),
{
    let spacing = if joint { proc_macro2::Spacing::Joint } else { proc_macro2::Spacing::Alone };
    stream.append(proc_macro2::Punct::new(ch, spacing));
}

/// `TokenStreamExt::append` of `Group::new(delimiter, inner)`: one group that
/// holds the token trees of `inner` is added at the end.
#[verifier::external_body]
pub(crate) fn append_group(
    stream: &mut proc_macro2::TokenStream,
    delimiter: Delimiter,
    inner: proc_macro2::TokenStream,
)
    ensures
        stream_tokens(*final(stream)) == stream_tokens(*old(stream)).push(
            Token::Group { delimiter, stream: stream_tokens(inner) },
        ),
{
    let delimiter = match delimiter {
        Delimiter::Parenthesis => proc_macro2::Delimiter::Parenthesis,
        Delimiter::Brace => proc_macro2::Delimiter::Brace,
        Delimiter::Bracket => proc_macro2::Delimiter::Bracket,
        Delimiter::Invisible => proc_macro2::Delimiter::None,
    };
    stream.append(proc_macro2::Group::new(delimiter, inner));
}

} // verus!
