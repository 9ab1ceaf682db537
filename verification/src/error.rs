//! Diagnostics: a message anchored at a source location.

use crate::tokens::{stream_tokens, Token};
use proc_macro2::{Span, TokenStream};
use vstd::prelude::*;

verus! {

/// `syn::Error`: a compiler diagnostic. It is carried, never read.
#[verifier::external_type_specification]
#[verifier::external_body]
pub struct ExSynError(syn::Error);

/// A failed validation: what went wrong, and where in the source.
#[derive(Debug)]
pub struct Diagnostic {
    pub span: Span,
    pub message: String,
}

/// A [`Diagnostic`] with its message as a sequence of characters.
pub ghost struct DiagnosticView {
    pub span: Span,
    pub message: Seq<char>,
}

impl View for Diagnostic {
    type V = DiagnosticView;

    open spec fn view(&self) -> DiagnosticView {
        DiagnosticView { span: self.span, message: self.message@ }
    }
}

/// Why a transformation was refused.
#[derive(Debug)]
pub enum TransformError {
    /// Arguments were given to the annotation.
    Arguments(Diagnostic),
    /// The annotated tokens are not an `impl` block.
    Parse(syn::Error),
    /// The `impl` block names no trait, or a negated one.
    Shape(Diagnostic),
    /// The `impl` block is for another trait.
    TraitMismatch(Diagnostic),
    /// The implementing type is not a simple path.
    SubjectShape(Diagnostic),
}

/// A [`TransformError`] with the messages of its diagnostics as sequences of
/// characters.
pub ghost enum TransformErrorView {
    Arguments(DiagnosticView),
    Parse(syn::Error),
    Shape(DiagnosticView),
    TraitMismatch(DiagnosticView),
    SubjectShape(DiagnosticView),
}

impl View for TransformError {
    type V = TransformErrorView;

    open spec fn view(&self) -> TransformErrorView {
        match self {
            TransformError::Arguments(d) => TransformErrorView::Arguments(d@),
            TransformError::Parse(e) => TransformErrorView::Parse(*e),
            TransformError::Shape(d) => TransformErrorView::Shape(d@),
            TransformError::TraitMismatch(d) => TransformErrorView::TraitMismatch(d@),
            TransformError::SubjectShape(d) => TransformErrorView::SubjectShape(d@),
        }
    }
}

/// The diagnostic that says `message` at `span`.
pub fn error(span: Span, message: &str) -> (diagnostic: Diagnostic)
    ensures
        diagnostic@ == (DiagnosticView { span, message: message@ }),
{
    Diagnostic { span, message: message.to_owned() }
}

/// The failure that says `message` at `span`.
pub fn error_res<T>(span: Span, message: &str) -> (result: Result<T, Diagnostic>)
    ensures
        result matches Err(diagnostic) && diagnostic@ == (DiagnosticView {
            span,
            message: message@,
        }),
{
    Err(error(span, message))
}

/// The compiler diagnostic that shows `message` at `span`.
pub uninterp spec fn syn_diagnostic(span: Span, message: Seq<char>) -> syn::Error;

/// `syn::Error::new`: the compiler diagnostic that shows `message` at `span`.
#[verifier::external_body]
fn syn_error(span: Span, message: &str) -> (e: syn::Error)
    ensures
        e == syn_diagnostic(span, message@),
{
    syn::Error::new(span, message)
}

/// The tokens that make the compiler report a diagnostic.
pub uninterp spec fn diagnostic_tokens(e: syn::Error) -> Seq<Token>;

/// `syn::Error::into_compile_error`: the diagnostic as tokens that make the
/// compiler report it.
#[verifier::external_body]
pub(crate) fn diagnostic_stream(e: syn::Error) -> (stream: TokenStream)
    ensures
        stream_tokens(stream) == diagnostic_tokens(e),
{
    e.into_compile_error()
}

impl TransformErrorView {
    /// The refusal as a compiler diagnostic.
    pub open spec fn syn_error(self) -> syn::Error {
        match self {
            TransformErrorView::Parse(e) => e,
            TransformErrorView::Arguments(d) => syn_diagnostic(d.span, d.message),
            TransformErrorView::Shape(d) => syn_diagnostic(d.span, d.message),
            TransformErrorView::TraitMismatch(d) => syn_diagnostic(d.span, d.message),
            TransformErrorView::SubjectShape(d) => syn_diagnostic(d.span, d.message),
        }
    }
}

impl TransformError {
    /// The refusal as a compiler diagnostic: the parser's own error where
    /// parsing refused, and otherwise one made of the message and the place
    /// that the refusal carries.
    pub fn into_syn_error(self) -> (e: syn::Error)
        ensures
            e == self@.syn_error(),
    {
        match self {
            TransformError::Parse(e) => e,
            TransformError::Arguments(d) => syn_error(d.span, d.message.as_str()),
            TransformError::Shape(d) => syn_error(d.span, d.message.as_str()),
            TransformError::TraitMismatch(d) => syn_error(d.span, d.message.as_str()),
            TransformError::SubjectShape(d) => syn_error(d.span, d.message.as_str()),
        }
    }
}

} // verus!
