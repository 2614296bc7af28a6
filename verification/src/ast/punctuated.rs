//! Lists whose items are set apart by punctuation, such as the `T, U` of
//! `<T, U>`.

use crate::tokenizer::{TokenReference, TokenReferenceView};
use vstd::prelude::*;

verus! {

/// One item of a punctuated list, with the punctuation that follows it if any
/// does.
#[derive(Debug)]
pub enum Pair<'a, T> {
    /// An item with nothing after it. Only the last item of a list can be this.
    End(T),
    /// An item and the punctuation after it.
    Punctuated(T, TokenReference<'a>),
}

/// What a [`Pair`] holds, given the view `V` of its item.
pub enum PairView<V> {
    End(V),
    Punctuated(V, TokenReferenceView),
}

impl<V> PairView<V> {
    /// The item.
    pub open spec fn value(self) -> V {
        match self {
            PairView::End(value) => value,
            PairView::Punctuated(value, _) => value,
        }
    }

    /// The punctuation after the item, if any.
    pub open spec fn punctuation(self) -> Option<TokenReferenceView> {
        match self {
            PairView::End(_) => None,
            PairView::Punctuated(_, punctuation) => Some(punctuation),
        }
    }

    /// The source text of the punctuation after the item: nothing where there
    /// is none.
    pub open spec fn punctuation_rendered(self) -> Seq<char> {
        match self {
            PairView::End(_) => Seq::empty(),
            PairView::Punctuated(_, punctuation) => punctuation.rendered(),
        }
    }
}

impl<'a, T> Pair<'a, T> {
    /// The item of this pair.
    pub open spec fn spec_value(self) -> T {
        match self {
            Pair::End(value) => value,
            Pair::Punctuated(value, _) => value,
        }
    }

    /// The punctuation of this pair, if any.
    pub open spec fn spec_punctuation(self) -> Option<TokenReference<'a>> {
        match self {
            Pair::End(_) => None,
            Pair::Punctuated(_, punctuation) => Some(punctuation),
        }
    }

    /// The pair of `value` and the punctuation after it, if any.
    pub fn new(value: T, punctuation: Option<TokenReference<'a>>) -> (pair: Pair<'a, T>)
        ensures
            pair.spec_value() == value,
            pair.spec_punctuation() == punctuation,
    {
        match punctuation {
            None => Pair::End(value),
            Some(punctuation) => Pair::Punctuated(value, punctuation),
        }
    }

    /// The item of this pair.
    pub fn value(&self) -> (value: &T)
        ensures
            *value == self.spec_value(),
    {
        match self {
            Pair::End(value) => value,
            Pair::Punctuated(value, _) => value,
        }
    }

    /// The punctuation of this pair, if any.
    pub fn punctuation(&self) -> (punctuation: Option<&TokenReference<'a>>)
        ensures
            match punctuation {
                Some(p) => self.spec_punctuation() == Some(*p),
                None => self.spec_punctuation() is None,
            },
    {
        match self {
            Pair::End(_) => None,
            Pair::Punctuated(_, punctuation) => Some(punctuation),
        }
    }

    /// The item of this pair, without its punctuation.
    pub fn into_value(self) -> (value: T)
        ensures
            value == self.spec_value(),
    {
        match self {
            Pair::End(value) => value,
            Pair::Punctuated(value, _) => value,
        }
    }
}

/// A list of items, each but perhaps the last followed by punctuation.
#[derive(Debug)]
pub struct Punctuated<'a, T> {
    pub(crate) pairs: Vec<Pair<'a, T>>,
}

impl<'a, T> Punctuated<'a, T> {
    /// The pairs of this list, in order.
    pub open(crate) spec fn view(&self) -> Seq<Pair<'a, T>> {
        self.pairs@
    }

    /// The empty list.
    pub fn new() -> (list: Punctuated<'a, T>)
        ensures
            list@ == Seq::<Pair<'a, T>>::empty(),
    {
        Punctuated { pairs: Vec::new() }
    }

    /// How many items the list has.
    pub fn len(&self) -> (n: usize)
        ensures
            n == self@.len(),
    {
        self.pairs.len()
    }

    /// Whether the list has no items.
    pub fn is_empty(&self) -> (b: bool)
        ensures
            b == (self@.len() == 0),
    {
        self.pairs.len() == 0
    }

    /// Puts `pair` at the end of the list.
    pub fn push(&mut self, pair: Pair<'a, T>)
        ensures
            final(self)@ == old(self)@.push(pair),
    {
        self.pairs.push(pair);
    }

    /// The pair at `index`, if the list is that long.
    pub fn get(&self, index: usize) -> (pair: Option<&Pair<'a, T>>)
        ensures
            match pair {
                Some(p) => index < self@.len() && *p == self@[index as int],
                None => index >= self@.len(),
            },
    {
        if index < self.pairs.len() {
            Some(&self.pairs[index])
        } else {
            None
        }
    }
}

} // verus!
