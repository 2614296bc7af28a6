//! A pair of delimiters, such as the two braces of a table type.

use crate::tokenizer::{Symbol, TokenReference, TokenReferenceView};
use vstd::prelude::*;
use vstd::std_specs::cmp::PartialEqSpecImpl;

verus! {

/// The opening and the closing token of something written between two marks.
#[derive(Debug)]
pub struct ContainedSpan<'a> {
    pub(crate) tokens: (TokenReference<'a>, TokenReference<'a>),
}

/// What a [`ContainedSpan`] holds, with its text as plain characters.
pub struct ContainedSpanView {
    pub open: TokenReferenceView,
    pub close: TokenReferenceView,
}

impl ContainedSpanView {
    /// Whether the two tokens are the symbols `open` and `close`.
    pub open spec fn is_pair(self, open: Symbol, close: Symbol) -> bool {
        self.open.is_symbol(open) && self.close.is_symbol(close)
    }
}

impl<'a> ContainedSpan<'a> {
    /// What this pair holds, with its text as plain characters.
    pub open(crate) spec fn view(&self) -> ContainedSpanView {
        ContainedSpanView { open: self.tokens.0@, close: self.tokens.1@ }
    }

    /// The pair made of the opening token `start` and the closing token `end`.
    pub fn new(start: TokenReference<'a>, end: TokenReference<'a>) -> (span: ContainedSpan<'a>)
        ensures
            span@ == (ContainedSpanView { open: start@, close: end@ }),
    {
        ContainedSpan { tokens: (start, end) }
    }

    /// The opening token and the closing token.
    pub fn tokens(&self) -> (tokens: (&TokenReference<'a>, &TokenReference<'a>))
        ensures
            tokens.0@ == self@.open,
            tokens.1@ == self@.close,
    {
        (&self.tokens.0, &self.tokens.1)
    }

    /// A copy of this pair that borrows nothing.
    pub fn owned(&self) -> (span: ContainedSpan<'static>)
        ensures
            span@ == self@,
    {
        ContainedSpan { tokens: (self.tokens.0.owned(), self.tokens.1.owned()) }
    }
}

impl<'a> Clone for ContainedSpan<'a> {
    /// A copy with the same two tokens.
    fn clone(&self) -> (span: Self)
        ensures
            span@ == self@,
    {
        self.owned()
    }
}

impl<'a> PartialEq for ContainedSpan<'a> {
    /// Whether the two hold the same opening and the same closing token.
    fn eq(&self, other: &Self) -> (r: bool) {
        self.tokens.0 == other.tokens.0 && self.tokens.1 == other.tokens.1
    }
}

impl<'a> PartialEqSpecImpl for ContainedSpan<'a> {
    open spec fn obeys_eq_spec() -> bool {
        true
    }

    open spec fn eq_spec(&self, other: &Self) -> bool {
        self@ == other@
    }
}

} // verus!
