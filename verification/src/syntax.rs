//! What the transformation reads of a parsed `impl` block.
//!
//! The parser's tree is read once, into the nodes of this module. A node
//! holds the tokens of a part of the declaration, and the flags that the
//! rules ask for. Where a part stands in the source and how it prints are
//! read off its tokens.

use crate::tokens::{stream_location, stream_rendering};
use proc_macro2::{Span, TokenStream};
use quote::ToTokens;
use syn::{Generics, ItemImpl};
use vstd::prelude::*;

verus! {

/// `syn::ItemImpl`: an `impl` block of the parser's tree. It is read once,
/// by the functions of this module.
#[verifier::external_type_specification]
#[verifier::external_body]
pub struct ExItemImpl(syn::ItemImpl);

/// A path such as `std::str::FromStr`.
#[derive(Debug)]
pub struct PathNode {
    pub tokens: TokenStream,
}

/// The trait that an `impl` block names before `for`.
#[derive(Debug)]
pub struct TraitRef {
    /// Whether it is written with `!`.
    pub negated: bool,
    pub path: PathNode,
}

/// A type that is written as a path, with or without a qualified-self
/// prefix such as `<T as Trait>::`.
#[derive(Debug)]
pub struct TypePathNode {
    /// The tokens of the type, with the prefix where it has one.
    pub tokens: TokenStream,
    /// Whether it has a qualified-self prefix.
    pub qualified: bool,
    /// The path behind the prefix.
    pub path: PathNode,
}

/// A type: one written as a path, or any other.
#[derive(Debug)]
pub enum TypeNode {
    Path(TypePathNode),
    Other { tokens: TokenStream },
}

/// An `impl` block.
pub struct ImplDecl {
    /// Its tokens, all of them.
    pub tokens: TokenStream,
    /// The trait that it implements; none for an inherent `impl`.
    pub trait_ref: Option<TraitRef>,
    /// The type that it is for.
    pub self_ty: Box<TypeNode>,
    /// Its generic parameters and its where-clause.
    pub generics: Generics,
}

impl PathNode {
    /// Where the path stands.
    pub open spec fn span(&self) -> Span {
        stream_location(self.tokens)
    }

    /// How the path prints.
    pub open spec fn text(&self) -> Seq<char> {
        stream_rendering(self.tokens)
    }
}

impl TypePathNode {
    /// Where the type stands.
    pub open spec fn span(&self) -> Span {
        stream_location(self.tokens)
    }

    /// How the type prints.
    pub open spec fn text(&self) -> Seq<char> {
        stream_rendering(self.tokens)
    }
}

impl ImplDecl {
    /// Where the block stands.
    pub open spec fn span(&self) -> Span {
        stream_location(self.tokens)
    }
}

/// What the parser makes of tokens: an `impl` block, or its error.
pub uninterp spec fn parsed_item(input: TokenStream) -> Result<ItemImpl, syn::Error>;

/// The tokens of an `impl` block of the parser's tree.
pub uninterp spec fn tokens_of(item: ItemImpl) -> TokenStream;

/// The trait that an `impl` block of the parser's tree names.
pub uninterp spec fn trait_of(item: ItemImpl) -> Option<TraitRef>;

/// The type that an `impl` block of the parser's tree is for.
pub uninterp spec fn subject_of(item: ItemImpl) -> TypeNode;

/// The generic parameters and the where-clause of an `impl` block of the
/// parser's tree.
pub uninterp spec fn generics_of(item: ItemImpl) -> Generics;

/// An `impl` block of the parser's tree as a node of this module.
pub open spec fn declaration(item: ItemImpl) -> ImplDecl {
    ImplDecl {
        tokens: tokens_of(item),
        trait_ref: trait_of(item),
        self_ty: Box::new(subject_of(item)),
        generics: generics_of(item),
    }
}

/// `syn::parse2::<ItemImpl>`: the tokens as an `impl` block, or the parser's
/// error.
#[verifier::external_body]
fn parse_item_impl(input: TokenStream) -> (result: Result<ItemImpl, syn::Error>)
    ensures
        result == parsed_item(input),
{
    syn::parse2::<ItemImpl>(input)
}

/// `ToTokens::to_token_stream` of an `impl` block: its tokens.
#[verifier::external_body]
fn read_tokens(item: &ItemImpl) -> (tokens: TokenStream)
    ensures
        tokens == tokens_of(*item),
{
    item.to_token_stream()
}

/// The field `trait_` of an `impl` block: whether a `!` stands before the
/// path, and the path as the tokens that `ToTokens::to_token_stream` gives.
#[verifier::external_body]
fn read_trait(item: &ItemImpl) -> (trait_ref: Option<TraitRef>)
    ensures
        trait_ref == trait_of(*item),
{
    match &item.trait_ {
        Some((bang, path, _)) => Some(
            TraitRef { negated: bang.is_some(), path: PathNode { tokens: path.to_token_stream() } },
        ),
        None => None,
    }
}

/// The field `self_ty` of an `impl` block, as the tokens that
/// `ToTokens::to_token_stream` gives: a `Type::Path` with its path and with
/// the flag that says whether it has a qualified-self prefix, every other
/// type as it is.
#[verifier::external_body]
fn read_subject(item: &ItemImpl) -> (subject: TypeNode)
    ensures
        subject == subject_of(*item),
{
    let tokens = item.self_ty.to_token_stream();
    match &*item.self_ty {
        syn::Type::Path(ty) => {
            let path = PathNode { tokens: ty.path.to_token_stream() };
            TypeNode::Path(TypePathNode { tokens, qualified: ty.qself.is_some(), path })
        },
        _ => TypeNode::Other { tokens },
    }
}

/// The field `generics` of an `impl` block.
#[verifier::external_body]
fn read_generics(item: &ItemImpl) -> (generics: Generics)
    ensures
        generics == generics_of(*item),
{
    item.generics.clone()
}

impl ImplDecl {
    /// What [`ImplDecl::parse`] gives for tokens.
    pub open spec fn parsed(input: TokenStream) -> Result<ImplDecl, syn::Error> {
        match parsed_item(input) {
            Ok(item) => Ok(declaration(item)),
            Err(e) => Err(e),
        }
    }

    /// Parses tokens as an `impl` block and reads it. What the parser refuses
    /// comes back as its error.
    pub fn parse(input: TokenStream) -> (result: Result<ImplDecl, syn::Error>)
        ensures
            result == ImplDecl::parsed(input),
    {
        match parse_item_impl(input) {
            Ok(item) => Ok(
                ImplDecl {
                    tokens: read_tokens(&item),
                    trait_ref: read_trait(&item),
                    self_ty: Box::new(read_subject(&item)),
                    generics: read_generics(&item),
                },
            ),
            Err(e) => Err(e),
        }
    }
}

} // verus!
