//! Derives `TryFrom<&str>` from `FromStr`.
//!
//! Given the tokens of an `impl FromStr for T` block, [`transform`] gives back
//! that block and, behind it, an `impl TryFrom<&str> for T` that calls
//! `from_str`. The generic parameters of the block are taken over behind one
//! added lifetime, and its where-clause is taken over as it is.

use crate::emit::{conversion_impl, emit, expansion, group, ident, impl_body, try_from_str};
use crate::error::{
    diagnostic_stream, diagnostic_tokens, error_res, DiagnosticView, TransformError,
    TransformErrorView,
};
use crate::generics::{
    impl_generics_stream, impl_generics_tokens, is_derived_from, prefix_impl_lifetime,
    where_clause_stream, where_clause_tokens,
};
use crate::getpath::GetPath;
use crate::message::{is_recognized, mismatch, mismatch_message, recognized, NO_ARGUMENTS};
use crate::syntax::{ImplDecl, PathNode};
use crate::tokens::{
    stream_is_empty, stream_location, stream_span, stream_text, stream_tokens, Delimiter, Token,
};
use proc_macro2::TokenStream;
use syn::Generics;
use vstd::prelude::*;

pub mod emit;
pub mod error;
pub mod generics;
pub mod getpath;
pub mod message;
pub mod syntax;
pub mod tokens;

verus! {

/// The refusal of arguments: it is anchored at the arguments.
pub open spec fn arguments_refusal(args: TokenStream) -> TransformErrorView {
    TransformErrorView::Arguments(
        DiagnosticView { span: stream_location(args), message: NO_ARGUMENTS@ },
    )
}

/// What [`require_impl_for_fromstr`] finds of a declaration.
pub open spec fn trait_check(decl: ImplDecl) -> Result<(), TransformErrorView> {
    match decl.path() {
        Err(diagnostic) => Err(TransformErrorView::Shape(diagnostic)),
        Ok(path) => if is_recognized(path.text()) {
            Ok(())
        } else {
            Err(
                TransformErrorView::TraitMismatch(
                    DiagnosticView { span: path.span(), message: mismatch_message(path.text()) },
                ),
            )
        },
    }
}

/// Why a declaration is refused, if it is: for its trait, or else for the
/// type that it is for.
pub open spec fn refusal(decl: ImplDecl) -> Option<TransformErrorView> {
    match trait_check(decl) {
        Err(e) => Some(e),
        Ok(_) => match decl.self_ty.path() {
            Err(diagnostic) => Some(TransformErrorView::SubjectShape(diagnostic)),
            Ok(_) => None,
        },
    }
}

/// Whether `result` is what a declaration expands to: its refusal, or its
/// tokens followed by the derived implementation for its subject type, with a
/// derived parameter list and its own where-clause.
pub open spec fn expands_to(decl: ImplDecl, result: Result<TokenStream, TransformError>) -> bool {
    match result {
        Err(e) => refusal(decl) == Some(e@),
        Ok(out) => {
            &&& refusal(decl) is None
            &&& decl.self_ty.path() matches Ok(subject)
            &&& exists|derived: Generics|
                is_derived_from(derived, decl.generics) && stream_tokens(out) == expansion(
                    stream_tokens(decl.tokens),
                    #[trigger] impl_generics_tokens(derived),
                    stream_tokens(subject.tokens),
                    where_clause_tokens(decl.generics),
                )
        },
    }
}

/// Whether `result` is what [`transform`] gives for the arguments `args` and
/// the tokens `input`: the refusal of the arguments where there are any, and
/// otherwise the parser's refusal of the tokens, or what the declaration that
/// it finds in them expands to.
pub open spec fn transforms_to(
    args: TokenStream,
    input: TokenStream,
    result: Result<TokenStream, TransformError>,
) -> bool {
    if stream_tokens(args).len() > 0 {
        result matches Err(e) && e@ == arguments_refusal(args)
    } else {
        match ImplDecl::parsed(input) {
            Err(refused) => result matches Err(e) && e@ == TransformErrorView::Parse(refused),
            Ok(decl) => expands_to(decl, result),
        }
    }
}

/// The tokens that stand for a result in the compiled program: those of a
/// success as they are, and for a refusal those that make the compiler report
/// it.
pub open spec fn rendered(result: Result<TokenStream, TransformError>) -> Seq<Token> {
    match result {
        Ok(out) => stream_tokens(out),
        Err(e) => diagnostic_tokens(e@.syn_error()),
    }
}

/// Refuses any arguments: the annotation takes none.
pub fn parse_args(args: TokenStream) -> (result: Result<(), TransformError>)
    ensures
        stream_tokens(args).len() == 0 ==> result is Ok,
        stream_tokens(args).len() > 0 ==> (result matches Err(e) && e@ == arguments_refusal(
            args,
        )),
{
    if stream_is_empty(&args) {
        Ok(())
    } else {
        match error_res::<()>(stream_span(&args), NO_ARGUMENTS) {
            Ok(_) => Ok(()),
            Err(diagnostic) => Err(TransformError::Arguments(diagnostic)),
        }
    }
}

/// Accepts a declaration that implements `FromStr`, named by one of its
/// recognized spellings, and refuses every other.
pub fn require_impl_for_fromstr(itemimpl: &ImplDecl) -> (result: Result<(), TransformError>)
    ensures
        match result {
            Ok(_) => trait_check(*itemimpl) is Ok,
            Err(e) => trait_check(*itemimpl) == Err::<(), TransformErrorView>(e@),
        },
{
    let fromstrpath = match itemimpl.get_path() {
        Ok(path) => path,
        Err(diagnostic) => {
            return Err(TransformError::Shape(diagnostic));
        },
    };
    let span = stream_span(&fromstrpath.tokens);
    let path = stream_text(&fromstrpath.tokens);
    if recognized(path.as_str()) {
        Ok(())
    } else {
        match error_res::<()>(span, mismatch(path.as_str()).as_str()) {
            Ok(_) => Ok(()),
            Err(diagnostic) => Err(TransformError::TraitMismatch(diagnostic)),
        }
    }
}

/// Expands a declaration: checks it, and writes it out with the derived
/// implementation behind it.
pub fn expand(decl: &ImplDecl) -> (result: Result<TokenStream, TransformError>)
    ensures
        expands_to(*decl, result),
{
    match require_impl_for_fromstr(decl) {
        Ok(_) => {},
        Err(e) => {
            return Err(e);
        },
    }
    let app_path = match decl.self_ty.get_path() {
        Ok(path) => path,
        Err(diagnostic) => {
            return Err(TransformError::SubjectShape(diagnostic));
        },
    };
    let tryfrom_generics = prefix_impl_lifetime(&decl.generics);
    let impl_generics = impl_generics_stream(&tryfrom_generics);
    let where_clause = where_clause_stream(&decl.generics);
    Ok(emit(&decl.tokens, &impl_generics, &app_path.tokens, &where_clause))
}

/// Transforms the tokens of an annotated declaration, given the arguments of
/// the annotation.
///
/// Any argument is refused, whatever the declaration. Tokens that are no
/// `impl` block are refused with the parser's error. An `impl` block is
/// expanded as [`expand`] says.
pub fn transform(args: TokenStream, input: TokenStream) -> (result: Result<
    TokenStream,
    TransformError,
>)
    ensures
        transforms_to(args, input, result),
{
    match parse_args(args) {
        Ok(_) => {},
        Err(e) => {
            return Err(e);
        },
    }
    let itemimpl = match ImplDecl::parse(input) {
        Ok(decl) => decl,
        Err(e) => {
            return Err(TransformError::Parse(e));
        },
    };
    expand(&itemimpl)
}

/// The attribute `#[tryfrom_via_fromstr]`, on the tokens of its arguments and
/// of the item that it is written on: what [`transform`] gives, with a
/// refusal turned into tokens that make the compiler report it.
pub fn tryfrom_via_fromstr(args: TokenStream, input: TokenStream) -> (out: TokenStream)
    ensures
        exists|result: Result<TokenStream, TransformError>| #[trigger]
            transforms_to(args, input, result) && stream_tokens(out) == rendered(result),
{
    match transform(args, input) {
        Ok(out) => out,
        Err(e) => diagnostic_stream(e.into_syn_error()),
    }
}

/// Whether `tokens` ends with `suffix`.
pub open spec fn ends_with(tokens: Seq<Token>, suffix: Seq<Token>) -> bool {
    tokens.len() >= suffix.len() && tokens.subrange(tokens.len() - suffix.len(), tokens.len() as int)
        == suffix
}

/// Arguments are refused whatever they are, and whatever stands in the
/// tokens that are to be transformed.
pub proof fn lemma_arguments_refused(
    args: TokenStream,
    input: TokenStream,
    result: Result<TokenStream, TransformError>,
)
    requires
        transforms_to(args, input, result),
        stream_tokens(args).len() > 0,
    ensures
        result matches Err(TransformError::Arguments(diagnostic)) && diagnostic.span
            == stream_location(args) && diagnostic.message@ == NO_ARGUMENTS@,
{
}

/// What a transformation gives begins with the declaration that it was given,
/// token for token.
pub proof fn lemma_declaration_comes_first(args: TokenStream, input: TokenStream, out: TokenStream)
    requires
        transforms_to(args, input, Ok(out)),
    ensures
        ImplDecl::parsed(input) matches Ok(decl) && stream_tokens(decl.tokens).is_prefix_of(
            stream_tokens(out),
        ),
{
}

/// The derived implementation has the where-clause of the declaration, and
/// no other: what a transformation gives ends with the subject type, the
/// tokens of that where-clause, none where the declaration has none, and the
/// braces of the derived implementation.
pub proof fn lemma_where_clause_carried(args: TokenStream, input: TokenStream, out: TokenStream)
    requires
        transforms_to(args, input, Ok(out)),
    ensures
        ImplDecl::parsed(input) matches Ok(decl) && decl.self_ty.path() matches Ok(subject)
            && ends_with(
            stream_tokens(out),
            stream_tokens(subject.tokens) + where_clause_tokens(decl.generics) + seq![
                group(Delimiter::Brace, impl_body()),
            ],
        ),
{
    let decl = ImplDecl::parsed(input)->Ok_0;
    let subject = decl.self_ty.path()->Ok_0;
    let derived = choose|derived: Generics|
        is_derived_from(derived, decl.generics) && stream_tokens(out) == expansion(
            stream_tokens(decl.tokens),
            #[trigger] impl_generics_tokens(derived),
            stream_tokens(subject.tokens),
            where_clause_tokens(decl.generics),
        );
    let head = stream_tokens(decl.tokens) + seq![ident("impl")] + impl_generics_tokens(derived)
        + try_from_str() + seq![ident("for")];
    let tail = stream_tokens(subject.tokens) + where_clause_tokens(decl.generics) + seq![
        group(Delimiter::Brace, impl_body()),
    ];
    assert(stream_tokens(out) == head + tail);
    assert((head + tail).subrange((head + tail).len() - tail.len(), (head + tail).len() as int)
        == tail);
}

/// The derived implementation has a derived parameter list: the added
/// lifetime, then the parameters of the declaration.
pub proof fn lemma_parameters_derived(args: TokenStream, input: TokenStream, out: TokenStream)
    requires
        transforms_to(args, input, Ok(out)),
    ensures
        ImplDecl::parsed(input) matches Ok(decl) && decl.self_ty.path() matches Ok(subject)
            && exists|derived: Generics|
            is_derived_from(derived, decl.generics) && stream_tokens(out) == stream_tokens(
                decl.tokens,
            ) + conversion_impl(
                #[trigger] impl_generics_tokens(derived),
                stream_tokens(subject.tokens),
                where_clause_tokens(decl.generics),
            ),
{
}

/// A declaration that names a trait, without negation, passes the check of
/// its trait where the trait's path prints as one of the three recognized
/// spellings, and only there: with any other spelling it is refused as an
/// implementation of another trait, at that path.
pub proof fn lemma_trait_spelling(decl: ImplDecl, path: PathNode)
    requires
        decl.path() == Ok::<PathNode, DiagnosticView>(path),
    ensures
        is_recognized(path.text()) ==> trait_check(decl) is Ok,
        !is_recognized(path.text()) ==> trait_check(decl) == Err::<(), TransformErrorView>(
            TransformErrorView::TraitMismatch(
                DiagnosticView { span: path.span(), message: mismatch_message(path.text()) },
            ),
        ),
{
}

} // verus!
