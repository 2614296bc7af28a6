//! Owned copies: a tree that borrows its text from a source buffer can be
//! copied into one that borrows nothing and so may outlive the buffer.
//!
//! The copy is deep. It holds the same tokens with the same trivia and the
//! same positions; only the owner of the text differs, which neither
//! rendering nor comparing looks at.

use crate::ast::punctuated::{Pair, Punctuated};
use crate::ast::types::{
    token_pair_view, token_pairs_view, type_field_pair_view, type_field_pairs_view,
    type_info_pair_view, type_info_pairs_view, CompoundAssignment, CompoundOp,
    ExportedTypeDeclaration, GenericDeclaration, IndexedTypeInfo, TypeAssertion, TypeDeclaration,
    TypeField, TypeFieldKey, TypeInfo, TypeSpecifier,
};
use crate::tokenizer::TokenReference;
use vstd::prelude::*;

verus! {

/// A copy of a punctuated list of [`TypeInfo`] that borrows nothing.
fn owned_type_info_pairs<'a>(list: &Punctuated<'a, TypeInfo<'a>>) -> (copy: Punctuated<
    'static,
    TypeInfo<'static>,
>)
    ensures
        type_info_pairs_view(&copy) == type_info_pairs_view(list),
    decreases list,
{
    let mut pairs: Vec<Pair<'static, TypeInfo<'static>>> = Vec::new();
    let mut i: usize = 0;
    while i < list.pairs.len()
        invariant
            i <= list.pairs.len(),
            pairs.len() == i,
            forall|j: int| 0 <= j < i ==> type_info_pair_view(pairs@[j]) ==
                type_info_pair_view(list.pairs@[j]),
        decreases list.pairs.len() - i,
    {
        let pair = match &list.pairs[i] {
            Pair::End(value) => Pair::End(value.owned()),
            Pair::Punctuated(value, punctuation) => Pair::Punctuated(
                value.owned(),
                punctuation.owned(),
            ),
        };
        pairs.push(pair);
        i = i + 1;
    }
    let copy = Punctuated { pairs };
    assert(type_info_pairs_view(&copy) =~= type_info_pairs_view(list));
    copy
}

/// A copy of a punctuated list of [`TypeField`] that borrows nothing.
fn owned_type_field_pairs<'a>(list: &Punctuated<'a, TypeField<'a>>) -> (copy: Punctuated<
    'static,
    TypeField<'static>,
>)
    ensures
        type_field_pairs_view(&copy) == type_field_pairs_view(list),
    decreases list,
{
    let mut pairs: Vec<Pair<'static, TypeField<'static>>> = Vec::new();
    let mut i: usize = 0;
    while i < list.pairs.len()
        invariant
            i <= list.pairs.len(),
            pairs.len() == i,
            forall|j: int| 0 <= j < i ==> type_field_pair_view(pairs@[j]) ==
                type_field_pair_view(list.pairs@[j]),
        decreases list.pairs.len() - i,
    {
        let pair = match &list.pairs[i] {
            Pair::End(value) => Pair::End(value.owned()),
            Pair::Punctuated(value, punctuation) => Pair::Punctuated(
                value.owned(),
                punctuation.owned(),
            ),
        };
        pairs.push(pair);
        i = i + 1;
    }
    let copy = Punctuated { pairs };
    assert(type_field_pairs_view(&copy) =~= type_field_pairs_view(list));
    copy
}

/// A copy of a punctuated list of [`TokenReference`] that borrows nothing.
fn owned_token_pairs<'a>(list: &Punctuated<'a, TokenReference<'a>>) -> (copy: Punctuated<
    'static,
    TokenReference<'static>,
>)
    ensures
        token_pairs_view(&copy) == token_pairs_view(list),
{
    let mut pairs: Vec<Pair<'static, TokenReference<'static>>> = Vec::new();
    let mut i: usize = 0;
    while i < list.pairs.len()
        invariant
            i <= list.pairs.len(),
            pairs.len() == i,
            forall|j: int| 0 <= j < i ==> token_pair_view(pairs@[j]) ==
                token_pair_view(list.pairs@[j]),
        decreases list.pairs.len() - i,
    {
        let pair = match &list.pairs[i] {
            Pair::End(value) => Pair::End(value.owned()),
            Pair::Punctuated(value, punctuation) => Pair::Punctuated(
                value.owned(),
                punctuation.owned(),
            ),
        };
        pairs.push(pair);
        i = i + 1;
    }
    let copy = Punctuated { pairs };
    assert(token_pairs_view(&copy) =~= token_pairs_view(list));
    copy
}

impl<'a> TypeInfo<'a> {
    /// A copy of this node that borrows nothing: every token of it owns its
    /// text. The copy holds what this node holds, so it renders the same.
    pub fn owned(&self) -> (node: TypeInfo<'static>)
        ensures
            node@ == self@,
            node@.rendered() == self@.rendered(),
        decreases self,
    {
        match self {
            TypeInfo::Array { braces, type_info } => TypeInfo::Array {
                braces: braces.owned(),
                type_info: Box::new(type_info.owned()),
            },
            TypeInfo::Basic(token) => TypeInfo::Basic(token.owned()),
            TypeInfo::Callback {
                parentheses,
                arguments,
                arrow,
                return_type,
            } => TypeInfo::Callback {
                parentheses: parentheses.owned(),
                arguments: owned_type_info_pairs(arguments),
                arrow: arrow.owned(),
                return_type: Box::new(return_type.owned()),
            },
            TypeInfo::Generic { base, arrows, generics } => TypeInfo::Generic {
                base: base.owned(),
                arrows: arrows.owned(),
                generics: owned_type_info_pairs(generics),
            },
            TypeInfo::Intersection { left, ampersand, right } => TypeInfo::Intersection {
                left: Box::new(left.owned()),
                ampersand: ampersand.owned(),
                right: Box::new(right.owned()),
            },
            TypeInfo::Module { module, punctuation, type_info } => TypeInfo::Module {
                module: module.owned(),
                punctuation: punctuation.owned(),
                type_info: Box::new(type_info.owned()),
            },
            TypeInfo::Optional { base, question_mark } => TypeInfo::Optional {
                base: Box::new(base.owned()),
                question_mark: question_mark.owned(),
            },
            TypeInfo::Table { braces, fields } => TypeInfo::Table {
                braces: braces.owned(),
                fields: owned_type_field_pairs(fields),
            },
            TypeInfo::Typeof { typeof_token, parentheses, inner } => TypeInfo::Typeof {
                typeof_token: typeof_token.owned(),
                parentheses: parentheses.owned(),
                inner: Box::new(inner.owned()),
            },
            TypeInfo::Tuple { parentheses, types } => TypeInfo::Tuple {
                parentheses: parentheses.owned(),
                types: owned_type_info_pairs(types),
            },
            TypeInfo::Union { left, pipe, right } => TypeInfo::Union {
                left: Box::new(left.owned()),
                pipe: pipe.owned(),
                right: Box::new(right.owned()),
            },
            TypeInfo::Variadic { ellipse, type_info } => TypeInfo::Variadic {
                ellipse: ellipse.owned(),
                type_info: Box::new(type_info.owned()),
            },
        }
    }
}

impl<'a> Clone for TypeInfo<'a> {
    /// A copy that holds what this node holds.
    fn clone(&self) -> (node: Self)
        ensures
            node@ == self@,
    {
        self.owned()
    }
}

impl<'a> IndexedTypeInfo<'a> {
    /// A copy of this node that borrows nothing: every token of it owns its
    /// text. The copy holds what this node holds, so it renders the same.
    pub fn owned(&self) -> (node: IndexedTypeInfo<'static>)
        ensures
            node@ == self@,
            node@.rendered() == self@.rendered(),
        decreases self,
    {
        match self {
            IndexedTypeInfo::Basic(token) => IndexedTypeInfo::Basic(token.owned()),
            IndexedTypeInfo::Generic { base, arrows, generics } => IndexedTypeInfo::Generic {
                base: base.owned(),
                arrows: arrows.owned(),
                generics: owned_type_info_pairs(generics),
            },
        }
    }
}

impl<'a> Clone for IndexedTypeInfo<'a> {
    /// A copy that holds what this node holds.
    fn clone(&self) -> (node: Self)
        ensures
            node@ == self@,
    {
        self.owned()
    }
}

impl<'a> TypeField<'a> {
    /// A copy of this node that borrows nothing: every token of it owns its
    /// text. The copy holds what this node holds, so it renders the same.
    pub fn owned(&self) -> (node: TypeField<'static>)
        ensures
            node@ == self@,
            node@.rendered() == self@.rendered(),
        decreases self,
    {
        TypeField {
            key: self.key.owned(),
            colon: self.colon.owned(),
            value: self.value.owned(),
        }
    }
}

impl<'a> Clone for TypeField<'a> {
    /// A copy that holds what this node holds.
    fn clone(&self) -> (node: Self)
        ensures
            node@ == self@,
    {
        self.owned()
    }
}

impl<'a> TypeFieldKey<'a> {
    /// A copy of this node that borrows nothing: every token of it owns its
    /// text. The copy holds what this node holds, so it renders the same.
    pub fn owned(&self) -> (node: TypeFieldKey<'static>)
        ensures
            node@ == self@,
            node@.rendered() == self@.rendered(),
        decreases self,
    {
        match self {
            TypeFieldKey::Name(token) => TypeFieldKey::Name(token.owned()),
            TypeFieldKey::IndexSignature { brackets, inner } => TypeFieldKey::IndexSignature {
                brackets: brackets.owned(),
                inner: inner.owned(),
            },
        }
    }
}

impl<'a> Clone for TypeFieldKey<'a> {
    /// A copy that holds what this node holds.
    fn clone(&self) -> (node: Self)
        ensures
            node@ == self@,
    {
        self.owned()
    }
}

impl<'a> TypeAssertion<'a> {
    /// A copy of this node that borrows nothing: every token of it owns its
    /// text. The copy holds what this node holds, so it renders the same.
    pub fn owned(&self) -> (node: TypeAssertion<'static>)
        ensures
            node@ == self@,
            node@.rendered() == self@.rendered(),
    {
        TypeAssertion {
            assertion_op: self.assertion_op.owned(),
            cast_to: self.cast_to.owned(),
        }
    }
}

impl<'a> Clone for TypeAssertion<'a> {
    /// A copy that holds what this node holds.
    fn clone(&self) -> (node: Self)
        ensures
            node@ == self@,
    {
        self.owned()
    }
}

impl<'a> TypeDeclaration<'a> {
    /// A copy of this node that borrows nothing: every token of it owns its
    /// text. The copy holds what this node holds, so it renders the same.
    pub fn owned(&self) -> (node: TypeDeclaration<'static>)
        ensures
            node@ == self@,
            node@.rendered() == self@.rendered(),
    {
        TypeDeclaration {
            type_token: self.type_token.owned(),
            base: self.base.owned(),
            generics: match &self.generics {
                Some(inner) => Some(inner.owned()),
                None => None,
            },
            equal_token: self.equal_token.owned(),
            declare_as: self.declare_as.owned(),
        }
    }
}

impl<'a> Clone for TypeDeclaration<'a> {
    /// A copy that holds what this node holds.
    fn clone(&self) -> (node: Self)
        ensures
            node@ == self@,
    {
        self.owned()
    }
}

impl<'a> GenericDeclaration<'a> {
    /// A copy of this node that borrows nothing: every token of it owns its
    /// text. The copy holds what this node holds, so it renders the same.
    pub fn owned(&self) -> (node: GenericDeclaration<'static>)
        ensures
            node@ == self@,
            node@.rendered() == self@.rendered(),
    {
        GenericDeclaration {
            arrows: self.arrows.owned(),
            generics: owned_token_pairs(&self.generics),
        }
    }
}

impl<'a> Clone for GenericDeclaration<'a> {
    /// A copy that holds what this node holds.
    fn clone(&self) -> (node: Self)
        ensures
            node@ == self@,
    {
        self.owned()
    }
}

impl<'a> TypeSpecifier<'a> {
    /// A copy of this node that borrows nothing: every token of it owns its
    /// text. The copy holds what this node holds, so it renders the same.
    pub fn owned(&self) -> (node: TypeSpecifier<'static>)
        ensures
            node@ == self@,
            node@.rendered() == self@.rendered(),
    {
        TypeSpecifier {
            punctuation: self.punctuation.owned(),
            type_info: self.type_info.owned(),
        }
    }
}

impl<'a> Clone for TypeSpecifier<'a> {
    /// A copy that holds what this node holds.
    fn clone(&self) -> (node: Self)
        ensures
            node@ == self@,
    {
        self.owned()
    }
}

impl<'a> ExportedTypeDeclaration<'a> {
    /// A copy of this node that borrows nothing: every token of it owns its
    /// text. The copy holds what this node holds, so it renders the same.
    pub fn owned(&self) -> (node: ExportedTypeDeclaration<'static>)
        ensures
            node@ == self@,
            node@.rendered() == self@.rendered(),
    {
        ExportedTypeDeclaration {
            export_token: self.export_token.owned(),
            type_declaration: self.type_declaration.owned(),
        }
    }
}

impl<'a> Clone for ExportedTypeDeclaration<'a> {
    /// A copy that holds what this node holds.
    fn clone(&self) -> (node: Self)
        ensures
            node@ == self@,
    {
        self.owned()
    }
}

impl<'a> CompoundOp<'a> {
    /// A copy of this node that borrows nothing: every token of it owns its
    /// text. The copy holds what this node holds, so it renders the same.
    pub fn owned(&self) -> (node: CompoundOp<'static>)
        ensures
            node@ == self@,
            node@.rendered() == self@.rendered(),
    {
        match self {
            CompoundOp::PlusEqual(token) => CompoundOp::PlusEqual(token.owned()),
            CompoundOp::MinusEqual(token) => CompoundOp::MinusEqual(token.owned()),
            CompoundOp::StarEqual(token) => CompoundOp::StarEqual(token.owned()),
            CompoundOp::SlashEqual(token) => CompoundOp::SlashEqual(token.owned()),
            CompoundOp::PercentEqual(token) => CompoundOp::PercentEqual(token.owned()),
            CompoundOp::CaretEqual(token) => CompoundOp::CaretEqual(token.owned()),
            CompoundOp::TwoDotsEqual(token) => CompoundOp::TwoDotsEqual(token.owned()),
        }
    }
}

impl<'a> Clone for CompoundOp<'a> {
    /// A copy that holds what this node holds.
    fn clone(&self) -> (node: Self)
        ensures
            node@ == self@,
    {
        self.owned()
    }
}

impl<'a> CompoundAssignment<'a> {
    /// A copy of this node that borrows nothing: every token of it owns its
    /// text. The copy holds what this node holds, so it renders the same.
    pub fn owned(&self) -> (node: CompoundAssignment<'static>)
        ensures
            node@ == self@,
            node@.rendered() == self@.rendered(),
    {
        CompoundAssignment {
            lhs: self.lhs.owned(),
            compound_operator: self.compound_operator.owned(),
            rhs: self.rhs.owned(),
        }
    }
}

impl<'a> Clone for CompoundAssignment<'a> {
    /// A copy that holds what this node holds.
    fn clone(&self) -> (node: Self)
        ensures
            node@ == self@,
    {
        self.owned()
    }
}

} // verus!
