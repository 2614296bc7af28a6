//! The nodes of the syntax tree.

pub mod equality;
pub mod laws;
pub mod owned;
pub mod position;
pub mod punctuated;
pub mod render;
pub mod span;
pub mod tokens;
pub mod types;
pub mod variants;


use crate::tokenizer::{
    owned_token_references, token_references_eq, token_references_view, TokenReference,
    TokenReferenceView,
};
use vstd::prelude::*;
use vstd::std_specs::cmp::PartialEqSpecImpl;

verus! {

/// An expression, as the tokens it was written with.
///
/// The grammar of expressions belongs to the parser. To this layer an
/// expression is the run of its tokens in source order, which is all that
/// rendering, comparing and measuring it take.
#[derive(Debug)]
pub struct Expression<'a> {
    pub(crate) tokens: Vec<TokenReference<'a>>,
}

/// What an [`Expression`] holds, with its text as plain characters.
pub struct ExpressionView {
    pub tokens: Seq<TokenReferenceView>,
}

impl<'a> Expression<'a> {
    /// What this expression holds, with its text as plain characters.
    pub open(crate) spec fn view(&self) -> ExpressionView {
        ExpressionView { tokens: token_references_view(self.tokens@) }
    }

    /// The expression written with `tokens`.
    pub fn new(tokens: Vec<TokenReference<'a>>) -> (expression: Expression<'a>)
        ensures
            expression@ == (ExpressionView { tokens: token_references_view(tokens@) }),
    {
        Expression { tokens }
    }

    /// The tokens of the expression, in source order.
    pub fn tokens(&self) -> (tokens: &Vec<TokenReference<'a>>)
        ensures
            token_references_view(tokens@) == self@.tokens,
    {
        &self.tokens
    }

    /// A copy of this expression that borrows nothing.
    pub fn owned(&self) -> (expression: Expression<'static>)
        ensures
            expression@ == self@,
    {
        Expression { tokens: owned_token_references(&self.tokens) }
    }
}

impl<'a> Clone for Expression<'a> {
    /// A copy with the same tokens.
    fn clone(&self) -> (expression: Self)
        ensures
            expression@ == self@,
    {
        self.owned()
    }
}

impl<'a> PartialEq for Expression<'a> {
    /// Whether the two are written with the same tokens.
    fn eq(&self, other: &Self) -> (r: bool) {
        token_references_eq(&self.tokens, &other.tokens)
    }
}

impl<'a> PartialEqSpecImpl for Expression<'a> {
    open spec fn obeys_eq_spec() -> bool {
        true
    }

    open spec fn eq_spec(&self, other: &Self) -> bool {
        self@ == other@
    }
}

/// Something that can be assigned to, as the tokens it was written with.
///
/// Like [`Expression`], its grammar belongs to the parser.
#[derive(Debug)]
pub struct Var<'a> {
    pub(crate) tokens: Vec<TokenReference<'a>>,
}

/// What a [`Var`] holds, with its text as plain characters.
pub struct VarView {
    pub tokens: Seq<TokenReferenceView>,
}

impl<'a> Var<'a> {
    /// What this target holds, with its text as plain characters.
    pub open(crate) spec fn view(&self) -> VarView {
        VarView { tokens: token_references_view(self.tokens@) }
    }

    /// The target written with `tokens`.
    pub fn new(tokens: Vec<TokenReference<'a>>) -> (var: Var<'a>)
        ensures
            var@ == (VarView { tokens: token_references_view(tokens@) }),
    {
        Var { tokens }
    }

    /// The tokens of the target, in source order.
    pub fn tokens(&self) -> (tokens: &Vec<TokenReference<'a>>)
        ensures
            token_references_view(tokens@) == self@.tokens,
    {
        &self.tokens
    }

    /// A copy of this target that borrows nothing.
    pub fn owned(&self) -> (var: Var<'static>)
        ensures
            var@ == self@,
    {
        Var { tokens: owned_token_references(&self.tokens) }
    }
}

impl<'a> Clone for Var<'a> {
    /// A copy with the same tokens.
    fn clone(&self) -> (var: Self)
        ensures
            var@ == self@,
    {
        self.owned()
    }
}

impl<'a> PartialEq for Var<'a> {
    /// Whether the two are written with the same tokens.
    fn eq(&self, other: &Self) -> (r: bool) {
        token_references_eq(&self.tokens, &other.tokens)
    }
}

impl<'a> PartialEqSpecImpl for Var<'a> {
    open spec fn obeys_eq_spec() -> bool {
        true
    }

    open spec fn eq_spec(&self, other: &Self) -> bool {
        self@ == other@
    }
}

} // verus!
