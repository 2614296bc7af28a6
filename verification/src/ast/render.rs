//! Rendering: every node writes itself back as source text.
//!
//! The text of a node is the text of its parts in the order in which they
//! stand in the source, and the text of a token is its leading trivia, itself,
//! and its trailing trivia. Nothing is added and nothing is left out, so a
//! tree renders as the text it stands for.

use crate::ast::punctuated::{Pair, PairView, Punctuated};
use crate::ast::types::{
    token_pair_view, token_pairs_view, type_field_pair_view, type_field_pairs_view,
    type_info_pair_view, type_info_pairs_view, CompoundAssignment, CompoundAssignmentView,
    CompoundOp, CompoundOpView, ExportedTypeDeclaration, ExportedTypeDeclarationView,
    GenericDeclaration, GenericDeclarationView, IndexedTypeInfo, IndexedTypeInfoView,
    TypeAssertion, TypeAssertionView, TypeDeclaration, TypeDeclarationView, TypeField,
    TypeFieldKey, TypeFieldKeyView, TypeFieldView, TypeInfo, TypeInfoView, TypeSpecifier,
    TypeSpecifierView,
};
use crate::ast::{Expression, ExpressionView, Var, VarView};
use crate::tokenizer::{
    render_token_references, token_references_rendered, TokenReference, TokenReferenceView,
};
use vstd::prelude::*;

verus! {

impl ExpressionView {
    /// The source text of the expression: that of its tokens, in order.
    pub open spec fn rendered(self) -> Seq<char> {
        token_references_rendered(self.tokens)
    }
}

impl VarView {
    /// The source text of the target: that of its tokens, in order.
    pub open spec fn rendered(self) -> Seq<char> {
        token_references_rendered(self.tokens)
    }
}

impl TypeInfoView {
    /// The source text of the node: that of its parts, in source order.
    pub open spec fn rendered(self) -> Seq<char>
        decreases self,
    {
        match self {
            TypeInfoView::Array { braces, type_info } => braces.open.rendered()
                + type_info.rendered()
                + braces.close.rendered(),
            TypeInfoView::Basic(token) => token.rendered(),
            TypeInfoView::Callback {
                parentheses,
                arguments,
                arrow,
                return_type,
            } => parentheses.open.rendered()
                + type_info_pairs_rendered(arguments)
                + parentheses.close.rendered()
                + arrow.rendered()
                + return_type.rendered(),
            TypeInfoView::Generic { base, arrows, generics } => base.rendered()
                + arrows.open.rendered()
                + type_info_pairs_rendered(generics)
                + arrows.close.rendered(),
            TypeInfoView::Intersection { left, ampersand, right } => left.rendered()
                + ampersand.rendered()
                + right.rendered(),
            TypeInfoView::Module { module, punctuation, type_info } => module.rendered()
                + punctuation.rendered()
                + type_info.rendered(),
            TypeInfoView::Optional { base, question_mark } => base.rendered()
                + question_mark.rendered(),
            TypeInfoView::Table { braces, fields } => braces.open.rendered()
                + type_field_pairs_rendered(fields)
                + braces.close.rendered(),
            TypeInfoView::Typeof { typeof_token, parentheses, inner } => typeof_token.rendered()
                + parentheses.open.rendered()
                + inner.rendered()
                + parentheses.close.rendered(),
            TypeInfoView::Tuple { parentheses, types } => parentheses.open.rendered()
                + type_info_pairs_rendered(types)
                + parentheses.close.rendered(),
            TypeInfoView::Union { left, pipe, right } => left.rendered()
                + pipe.rendered()
                + right.rendered(),
            TypeInfoView::Variadic { ellipse, type_info } => ellipse.rendered()
                + type_info.rendered(),
        }
    }
}

impl IndexedTypeInfoView {
    /// The source text of the node: that of its parts, in source order.
    pub open spec fn rendered(self) -> Seq<char>
        decreases self,
    {
        match self {
            IndexedTypeInfoView::Basic(token) => token.rendered(),
            IndexedTypeInfoView::Generic { base, arrows, generics } => base.rendered()
                + arrows.open.rendered()
                + type_info_pairs_rendered(generics)
                + arrows.close.rendered(),
        }
    }
}

impl TypeFieldView {
    /// The source text of the node: that of its parts, in source order.
    pub open spec fn rendered(self) -> Seq<char>
        decreases self,
    {
        self.key.rendered() + self.colon.rendered() + self.value.rendered()
    }
}

impl TypeFieldKeyView {
    /// The source text of the node: that of its parts, in source order.
    pub open spec fn rendered(self) -> Seq<char>
        decreases self,
    {
        match self {
            TypeFieldKeyView::Name(token) => token.rendered(),
            TypeFieldKeyView::IndexSignature { brackets, inner } => brackets.open.rendered()
                + inner.rendered()
                + brackets.close.rendered(),
        }
    }
}

impl TypeAssertionView {
    /// The source text of the node: that of its parts, in source order.
    pub open spec fn rendered(self) -> Seq<char> {
        self.assertion_op.rendered() + self.cast_to.rendered()
    }
}

impl TypeDeclarationView {
    /// The source text of the node: that of its parts, in source order.
    pub open spec fn rendered(self) -> Seq<char> {
        self.type_token.rendered()
            + self.base.rendered()
            + optional_rendered(self.generics)
            + self.equal_token.rendered()
            + self.declare_as.rendered()
    }
}

impl GenericDeclarationView {
    /// The source text of the node: that of its parts, in source order.
    pub open spec fn rendered(self) -> Seq<char> {
        self.arrows.open.rendered()
            + token_pairs_rendered(self.generics)
            + self.arrows.close.rendered()
    }
}

impl TypeSpecifierView {
    /// The source text of the node: that of its parts, in source order.
    pub open spec fn rendered(self) -> Seq<char> {
        self.punctuation.rendered() + self.type_info.rendered()
    }
}

impl ExportedTypeDeclarationView {
    /// The source text of the node: that of its parts, in source order.
    pub open spec fn rendered(self) -> Seq<char> {
        self.export_token.rendered() + self.type_declaration.rendered()
    }
}

impl CompoundOpView {
    /// The source text of the node: that of its parts, in source order.
    pub open spec fn rendered(self) -> Seq<char> {
        match self {
            CompoundOpView::PlusEqual(token) => token.rendered(),
            CompoundOpView::MinusEqual(token) => token.rendered(),
            CompoundOpView::StarEqual(token) => token.rendered(),
            CompoundOpView::SlashEqual(token) => token.rendered(),
            CompoundOpView::PercentEqual(token) => token.rendered(),
            CompoundOpView::CaretEqual(token) => token.rendered(),
            CompoundOpView::TwoDotsEqual(token) => token.rendered(),
        }
    }
}

impl CompoundAssignmentView {
    /// The source text of the node: that of its parts, in source order.
    pub open spec fn rendered(self) -> Seq<char> {
        self.lhs.rendered() + self.compound_operator.rendered() + self.rhs.rendered()
    }
}

/// The source text of a declaration of parameters that may be absent: nothing
/// where there is none.
pub open spec fn optional_rendered(generics: Option<GenericDeclarationView>) -> Seq<char> {
    match generics {
        Some(inner) => inner.rendered(),
        None => Seq::empty(),
    }
}

/// The source text of a punctuated list of [`TypeInfo`]: each item followed by
/// its punctuation, in order.
pub open spec fn type_info_pairs_rendered(pairs: Seq<PairView<TypeInfoView>>) -> Seq<char>
    decreases pairs,
{
    if pairs.len() == 0 {
        Seq::empty()
    } else {
        type_info_pairs_rendered(pairs.drop_last()) + (match pairs.last() {
            PairView::End(value) => value.rendered(),
            PairView::Punctuated(value, punctuation) => value.rendered() + punctuation.rendered(),
        })
    }
}

/// The source text of a punctuated list of [`TypeField`]: each item followed by
/// its punctuation, in order.
pub open spec fn type_field_pairs_rendered(pairs: Seq<PairView<TypeFieldView>>) -> Seq<char>
    decreases pairs,
{
    if pairs.len() == 0 {
        Seq::empty()
    } else {
        type_field_pairs_rendered(pairs.drop_last()) + (match pairs.last() {
            PairView::End(value) => value.rendered(),
            PairView::Punctuated(value, punctuation) => value.rendered() + punctuation.rendered(),
        })
    }
}

/// The source text of a punctuated list of [`TokenReference`]: each item followed by
/// its punctuation, in order.
pub open spec fn token_pairs_rendered(pairs: Seq<PairView<TokenReferenceView>>) -> Seq<char>
    decreases pairs,
{
    if pairs.len() == 0 {
        Seq::empty()
    } else {
        token_pairs_rendered(pairs.drop_last()) + (match pairs.last() {
            PairView::End(value) => value.rendered(),
            PairView::Punctuated(value, punctuation) => value.rendered() + punctuation.rendered(),
        })
    }
}

/// Appends the source text of a punctuated list of [`TypeInfo`] to `out`.
fn render_type_info_pairs<'a>(list: &Punctuated<'a, TypeInfo<'a>>, out: &mut String)
    ensures
        final(out)@ == old(out)@ + type_info_pairs_rendered(type_info_pairs_view(list)),
    decreases list,
{
    let ghost views = type_info_pairs_view(list);
    let mut i: usize = 0;
    while i < list.pairs.len()
        invariant
            i <= list.pairs.len(),
            views == type_info_pairs_view(list),
            out@ == old(out)@ + type_info_pairs_rendered(views.take(i as int)),
        decreases list.pairs.len() - i,
    {
        match &list.pairs[i] {
            Pair::End(value) => {
                value.render_into(out);
            },
            Pair::Punctuated(value, punctuation) => {
                value.render_into(out);
                punctuation.render_into(out);
            },
        }
        proof {
            let next = views.take(i + 1);
            assert(next.drop_last() =~= views.take(i as int));
            assert(out@ =~= old(out)@ + type_info_pairs_rendered(next));
        }
        i = i + 1;
    }
    assert(views.take(i as int) =~= views);
}

/// Appends the source text of a punctuated list of [`TypeField`] to `out`.
fn render_type_field_pairs<'a>(list: &Punctuated<'a, TypeField<'a>>, out: &mut String)
    ensures
        final(out)@ == old(out)@ + type_field_pairs_rendered(type_field_pairs_view(list)),
    decreases list,
{
    let ghost views = type_field_pairs_view(list);
    let mut i: usize = 0;
    while i < list.pairs.len()
        invariant
            i <= list.pairs.len(),
            views == type_field_pairs_view(list),
            out@ == old(out)@ + type_field_pairs_rendered(views.take(i as int)),
        decreases list.pairs.len() - i,
    {
        match &list.pairs[i] {
            Pair::End(value) => {
                value.render_into(out);
            },
            Pair::Punctuated(value, punctuation) => {
                value.render_into(out);
                punctuation.render_into(out);
            },
        }
        proof {
            let next = views.take(i + 1);
            assert(next.drop_last() =~= views.take(i as int));
            assert(out@ =~= old(out)@ + type_field_pairs_rendered(next));
        }
        i = i + 1;
    }
    assert(views.take(i as int) =~= views);
}

/// Appends the source text of a punctuated list of [`TokenReference`] to `out`.
fn render_token_pairs<'a>(list: &Punctuated<'a, TokenReference<'a>>, out: &mut String)
    ensures
        final(out)@ == old(out)@ + token_pairs_rendered(token_pairs_view(list)),
{
    let ghost views = token_pairs_view(list);
    let mut i: usize = 0;
    while i < list.pairs.len()
        invariant
            i <= list.pairs.len(),
            views == token_pairs_view(list),
            out@ == old(out)@ + token_pairs_rendered(views.take(i as int)),
        decreases list.pairs.len() - i,
    {
        match &list.pairs[i] {
            Pair::End(value) => {
                value.render_into(out);
            },
            Pair::Punctuated(value, punctuation) => {
                value.render_into(out);
                punctuation.render_into(out);
            },
        }
        proof {
            let next = views.take(i + 1);
            assert(next.drop_last() =~= views.take(i as int));
            assert(out@ =~= old(out)@ + token_pairs_rendered(next));
        }
        i = i + 1;
    }
    assert(views.take(i as int) =~= views);
}

impl<'a> Expression<'a> {
    /// Appends the source text of the node to `out`.
    pub fn render_into(&self, out: &mut String)
        ensures
            final(out)@ == old(out)@ + self@.rendered(),
    {
        render_token_references(&self.tokens, out);
    }

    /// The source text of the node.
    pub fn render(&self) -> (text: String)
        ensures
            text@ == self@.rendered(),
    {
        let mut out = String::new();
        self.render_into(&mut out);
        assert(out@ =~= self@.rendered());
        out
    }
}

impl<'a> Var<'a> {
    /// Appends the source text of the node to `out`.
    pub fn render_into(&self, out: &mut String)
        ensures
            final(out)@ == old(out)@ + self@.rendered(),
    {
        render_token_references(&self.tokens, out);
    }

    /// The source text of the node.
    pub fn render(&self) -> (text: String)
        ensures
            text@ == self@.rendered(),
    {
        let mut out = String::new();
        self.render_into(&mut out);
        assert(out@ =~= self@.rendered());
        out
    }
}

impl<'a> TypeInfo<'a> {
    /// Appends the source text of the node to `out`: that of its parts, in
    /// source order.
    pub fn render_into(&self, out: &mut String)
        ensures
            final(out)@ == old(out)@ + self@.rendered(),
        decreases self,
    {
        match self {
            TypeInfo::Array { braces, type_info } => {
                braces.tokens().0.render_into(out);
                type_info.render_into(out);
                braces.tokens().1.render_into(out);
                assert(out@ =~= old(out)@ + self@.rendered());
            },
            TypeInfo::Basic(token) => {
                token.render_into(out);
            },
            TypeInfo::Callback { parentheses, arguments, arrow, return_type } => {
                parentheses.tokens().0.render_into(out);
                render_type_info_pairs(arguments, out);
                parentheses.tokens().1.render_into(out);
                arrow.render_into(out);
                return_type.render_into(out);
                assert(out@ =~= old(out)@ + self@.rendered());
            },
            TypeInfo::Generic { base, arrows, generics } => {
                base.render_into(out);
                arrows.tokens().0.render_into(out);
                render_type_info_pairs(generics, out);
                arrows.tokens().1.render_into(out);
                assert(out@ =~= old(out)@ + self@.rendered());
            },
            TypeInfo::Intersection { left, ampersand, right } => {
                left.render_into(out);
                ampersand.render_into(out);
                right.render_into(out);
                assert(out@ =~= old(out)@ + self@.rendered());
            },
            TypeInfo::Module { module, punctuation, type_info } => {
                module.render_into(out);
                punctuation.render_into(out);
                type_info.render_into(out);
                assert(out@ =~= old(out)@ + self@.rendered());
            },
            TypeInfo::Optional { base, question_mark } => {
                base.render_into(out);
                question_mark.render_into(out);
                assert(out@ =~= old(out)@ + self@.rendered());
            },
            TypeInfo::Table { braces, fields } => {
                braces.tokens().0.render_into(out);
                render_type_field_pairs(fields, out);
                braces.tokens().1.render_into(out);
                assert(out@ =~= old(out)@ + self@.rendered());
            },
            TypeInfo::Typeof { typeof_token, parentheses, inner } => {
                typeof_token.render_into(out);
                parentheses.tokens().0.render_into(out);
                inner.render_into(out);
                parentheses.tokens().1.render_into(out);
                assert(out@ =~= old(out)@ + self@.rendered());
            },
            TypeInfo::Tuple { parentheses, types } => {
                parentheses.tokens().0.render_into(out);
                render_type_info_pairs(types, out);
                parentheses.tokens().1.render_into(out);
                assert(out@ =~= old(out)@ + self@.rendered());
            },
            TypeInfo::Union { left, pipe, right } => {
                left.render_into(out);
                pipe.render_into(out);
                right.render_into(out);
                assert(out@ =~= old(out)@ + self@.rendered());
            },
            TypeInfo::Variadic { ellipse, type_info } => {
                ellipse.render_into(out);
                type_info.render_into(out);
                assert(out@ =~= old(out)@ + self@.rendered());
            },
        }
    }

    /// The source text of the node.
    pub fn render(&self) -> (text: String)
        ensures
            text@ == self@.rendered(),
    {
        let mut out = String::new();
        self.render_into(&mut out);
        assert(out@ =~= self@.rendered());
        out
    }
}

impl<'a> IndexedTypeInfo<'a> {
    /// Appends the source text of the node to `out`: that of its parts, in
    /// source order.
    pub fn render_into(&self, out: &mut String)
        ensures
            final(out)@ == old(out)@ + self@.rendered(),
        decreases self,
    {
        match self {
            IndexedTypeInfo::Basic(token) => {
                token.render_into(out);
            },
            IndexedTypeInfo::Generic { base, arrows, generics } => {
                base.render_into(out);
                arrows.tokens().0.render_into(out);
                render_type_info_pairs(generics, out);
                arrows.tokens().1.render_into(out);
                assert(out@ =~= old(out)@ + self@.rendered());
            },
        }
    }

    /// The source text of the node.
    pub fn render(&self) -> (text: String)
        ensures
            text@ == self@.rendered(),
    {
        let mut out = String::new();
        self.render_into(&mut out);
        assert(out@ =~= self@.rendered());
        out
    }
}

impl<'a> TypeField<'a> {
    /// Appends the source text of the node to `out`: that of its parts, in
    /// source order.
    pub fn render_into(&self, out: &mut String)
        ensures
            final(out)@ == old(out)@ + self@.rendered(),
        decreases self,
    {
        self.key.render_into(out);
        self.colon.render_into(out);
        self.value.render_into(out);
        assert(out@ =~= old(out)@ + self@.rendered());
    }

    /// The source text of the node.
    pub fn render(&self) -> (text: String)
        ensures
            text@ == self@.rendered(),
    {
        let mut out = String::new();
        self.render_into(&mut out);
        assert(out@ =~= self@.rendered());
        out
    }
}

impl<'a> TypeFieldKey<'a> {
    /// Appends the source text of the node to `out`: that of its parts, in
    /// source order.
    pub fn render_into(&self, out: &mut String)
        ensures
            final(out)@ == old(out)@ + self@.rendered(),
        decreases self,
    {
        match self {
            TypeFieldKey::Name(token) => {
                token.render_into(out);
            },
            TypeFieldKey::IndexSignature { brackets, inner } => {
                brackets.tokens().0.render_into(out);
                inner.render_into(out);
                brackets.tokens().1.render_into(out);
                assert(out@ =~= old(out)@ + self@.rendered());
            },
        }
    }

    /// The source text of the node.
    pub fn render(&self) -> (text: String)
        ensures
            text@ == self@.rendered(),
    {
        let mut out = String::new();
        self.render_into(&mut out);
        assert(out@ =~= self@.rendered());
        out
    }
}

impl<'a> TypeAssertion<'a> {
    /// Appends the source text of the node to `out`: that of its parts, in
    /// source order.
    pub fn render_into(&self, out: &mut String)
        ensures
            final(out)@ == old(out)@ + self@.rendered(),
    {
        self.assertion_op.render_into(out);
        self.cast_to.render_into(out);
        assert(out@ =~= old(out)@ + self@.rendered());
    }

    /// The source text of the node.
    pub fn render(&self) -> (text: String)
        ensures
            text@ == self@.rendered(),
    {
        let mut out = String::new();
        self.render_into(&mut out);
        assert(out@ =~= self@.rendered());
        out
    }
}

impl<'a> TypeDeclaration<'a> {
    /// Appends the source text of the node to `out`: that of its parts, in
    /// source order.
    pub fn render_into(&self, out: &mut String)
        ensures
            final(out)@ == old(out)@ + self@.rendered(),
    {
        self.type_token.render_into(out);
        self.base.render_into(out);
        match &self.generics {
            Some(inner) => inner.render_into(out),
            None => {},
        }
        self.equal_token.render_into(out);
        self.declare_as.render_into(out);
        assert(out@ =~= old(out)@ + self@.rendered());
    }

    /// The source text of the node.
    pub fn render(&self) -> (text: String)
        ensures
            text@ == self@.rendered(),
    {
        let mut out = String::new();
        self.render_into(&mut out);
        assert(out@ =~= self@.rendered());
        out
    }
}

impl<'a> GenericDeclaration<'a> {
    /// Appends the source text of the node to `out`: that of its parts, in
    /// source order.
    pub fn render_into(&self, out: &mut String)
        ensures
            final(out)@ == old(out)@ + self@.rendered(),
    {
        self.arrows.tokens().0.render_into(out);
        render_token_pairs(&self.generics, out);
        self.arrows.tokens().1.render_into(out);
        assert(out@ =~= old(out)@ + self@.rendered());
    }

    /// The source text of the node.
    pub fn render(&self) -> (text: String)
        ensures
            text@ == self@.rendered(),
    {
        let mut out = String::new();
        self.render_into(&mut out);
        assert(out@ =~= self@.rendered());
        out
    }
}

impl<'a> TypeSpecifier<'a> {
    /// Appends the source text of the node to `out`: that of its parts, in
    /// source order.
    pub fn render_into(&self, out: &mut String)
        ensures
            final(out)@ == old(out)@ + self@.rendered(),
    {
        self.punctuation.render_into(out);
        self.type_info.render_into(out);
        assert(out@ =~= old(out)@ + self@.rendered());
    }

    /// The source text of the node.
    pub fn render(&self) -> (text: String)
        ensures
            text@ == self@.rendered(),
    {
        let mut out = String::new();
        self.render_into(&mut out);
        assert(out@ =~= self@.rendered());
        out
    }
}

impl<'a> ExportedTypeDeclaration<'a> {
    /// Appends the source text of the node to `out`: that of its parts, in
    /// source order.
    pub fn render_into(&self, out: &mut String)
        ensures
            final(out)@ == old(out)@ + self@.rendered(),
    {
        self.export_token.render_into(out);
        self.type_declaration.render_into(out);
        assert(out@ =~= old(out)@ + self@.rendered());
    }

    /// The source text of the node.
    pub fn render(&self) -> (text: String)
        ensures
            text@ == self@.rendered(),
    {
        let mut out = String::new();
        self.render_into(&mut out);
        assert(out@ =~= self@.rendered());
        out
    }
}

impl<'a> CompoundOp<'a> {
    /// Appends the source text of the node to `out`: that of its parts, in
    /// source order.
    pub fn render_into(&self, out: &mut String)
        ensures
            final(out)@ == old(out)@ + self@.rendered(),
    {
        match self {
            CompoundOp::PlusEqual(token) => {
                token.render_into(out);
            },
            CompoundOp::MinusEqual(token) => {
                token.render_into(out);
            },
            CompoundOp::StarEqual(token) => {
                token.render_into(out);
            },
            CompoundOp::SlashEqual(token) => {
                token.render_into(out);
            },
            CompoundOp::PercentEqual(token) => {
                token.render_into(out);
            },
            CompoundOp::CaretEqual(token) => {
                token.render_into(out);
            },
            CompoundOp::TwoDotsEqual(token) => {
                token.render_into(out);
            },
        }
    }

    /// The source text of the node.
    pub fn render(&self) -> (text: String)
        ensures
            text@ == self@.rendered(),
    {
        let mut out = String::new();
        self.render_into(&mut out);
        assert(out@ =~= self@.rendered());
        out
    }
}

impl<'a> CompoundAssignment<'a> {
    /// Appends the source text of the node to `out`: that of its parts, in
    /// source order.
    pub fn render_into(&self, out: &mut String)
        ensures
            final(out)@ == old(out)@ + self@.rendered(),
    {
        self.lhs.render_into(out);
        self.compound_operator.render_into(out);
        self.rhs.render_into(out);
        assert(out@ =~= old(out)@ + self@.rendered());
    }

    /// The source text of the node.
    pub fn render(&self) -> (text: String)
        ensures
            text@ == self@.rendered(),
    {
        let mut out = String::new();
        self.render_into(&mut out);
        assert(out@ =~= self@.rendered());
        out
    }
}

} // verus!
