//! From a syntax node to the path that it stands for.

use crate::error::{error_res, Diagnostic, DiagnosticView};
use crate::message::{
    not_a_path, not_a_path_message, not_simple, not_simple_message, NEGATION, NON_TRAIT,
};
use crate::syntax::{ImplDecl, PathNode, TypeNode, TypePathNode};
use crate::tokens::{stream_location, stream_rendering, stream_span, stream_text};
use vstd::prelude::*;

verus! {

/// A node that may reduce to a path.
pub trait GetPath {
    /// The path that the node reduces to, or the diagnostic that says why it
    /// does not. The diagnostic is anchored at the node.
    spec fn path(&self) -> Result<PathNode, DiagnosticView>;

    /// Computes [`GetPath::path`].
    fn get_path(&self) -> (result: Result<&PathNode, Diagnostic>)
        ensures
            match result {
                Ok(path) => self.path() == Ok::<PathNode, DiagnosticView>(*path),
                Err(diagnostic) => self.path() == Err::<PathNode, DiagnosticView>(diagnostic@),
            },
    ;
}

/// An `impl` block reduces to the path of the trait that it implements. It
/// must name one, and not negate it.
impl GetPath for ImplDecl {
    open spec fn path(&self) -> Result<PathNode, DiagnosticView> {
        match self.trait_ref {
            Some(trait_ref) => if trait_ref.negated {
                Err(DiagnosticView { span: self.span(), message: NEGATION@ })
            } else {
                Ok(trait_ref.path)
            },
            None => Err(DiagnosticView { span: self.span(), message: NON_TRAIT@ }),
        }
    }

    fn get_path(&self) -> (result: Result<&PathNode, Diagnostic>) {
        match &self.trait_ref {
            Some(trait_ref) => if trait_ref.negated {
                error_res(stream_span(&self.tokens), NEGATION)
            } else {
                Ok(&trait_ref.path)
            },
            None => error_res(stream_span(&self.tokens), NON_TRAIT),
        }
    }
}

/// A box reduces to what its content reduces to.
impl<T: GetPath> GetPath for Box<T> {
    open spec fn path(&self) -> Result<PathNode, DiagnosticView> {
        (**self).path()
    }

    fn get_path(&self) -> (result: Result<&PathNode, Diagnostic>) {
        (**self).get_path()
    }
}

/// A type reduces to a path where it is written as one.
impl GetPath for TypeNode {
    open spec fn path(&self) -> Result<PathNode, DiagnosticView> {
        match self {
            TypeNode::Path(type_path) => type_path.path(),
            TypeNode::Other { tokens } => Err(
                DiagnosticView {
                    span: stream_location(*tokens),
                    message: not_a_path_message(stream_rendering(*tokens)),
                },
            ),
        }
    }

    fn get_path(&self) -> (result: Result<&PathNode, Diagnostic>) {
        match self {
            TypeNode::Path(type_path) => type_path.get_path(),
            TypeNode::Other { tokens } => error_res(
                stream_span(tokens),
                not_a_path(stream_text(tokens).as_str()).as_str(),
            ),
        }
    }
}

/// A path type reduces to its path where it has no qualified-self prefix.
impl GetPath for TypePathNode {
    open spec fn path(&self) -> Result<PathNode, DiagnosticView> {
        if self.qualified {
            Err(DiagnosticView { span: self.span(), message: not_simple_message(self.text()) })
        } else {
            Ok(self.path)
        }
    }

    fn get_path(&self) -> (result: Result<&PathNode, Diagnostic>) {
        if self.qualified {
            error_res(
                stream_span(&self.tokens),
                not_simple(stream_text(&self.tokens).as_str()).as_str(),
            )
        } else {
            Ok(&self.path)
        }
    }
}

} // verus!
