//! Walking a tree: every node hands out its tokens in source order.
//!
//! The walk goes depth first and from left to right, and it only reads. What
//! it yields borrows from the tree, so the tree cannot change while the
//! tokens are in use.

use crate::ast::punctuated::{Pair, PairView, Punctuated};
use crate::ast::types::{
    token_pair_view, token_pairs_view, type_field_pair_view, type_field_pairs_view,
    type_info_pair_view, type_info_pairs_view, CompoundAssignment, CompoundAssignmentView,
    CompoundOp, CompoundOpView, ExportedTypeDeclaration, ExportedTypeDeclarationView,
    GenericDeclaration, GenericDeclarationView, IndexedTypeInfo, IndexedTypeInfoView,
    TypeAssertion, TypeAssertionView, TypeDeclaration, TypeDeclarationView, TypeField,
    TypeFieldKey, TypeFieldKeyView, TypeFieldView, TypeInfo, TypeInfoView, TypeSpecifier,
    TypeSpecifierView,
};
use crate::ast::{Expression, ExpressionView, Var, VarView};
use crate::tokenizer::{TokenReference, TokenReferenceView};
use vstd::prelude::*;

verus! {

/// The views of the token references that a run of borrows leads to, in order.
pub open spec fn references_view<'n, 'a>(tokens: Seq<&'n TokenReference<'a>>) -> Seq<
    TokenReferenceView,
> {
    Seq::new(tokens.len(), |i: int| tokens[i]@)
}

/// Puts `token` at the end of `out`.
fn push_token<'n, 'a>(out: &mut Vec<&'n TokenReference<'a>>, token: &'n TokenReference<'a>)
    ensures
        references_view(final(out)@) == references_view(old(out)@) + seq![token@],
{
    out.push(token);
    assert(references_view(out@) =~= references_view(old(out)@) + seq![token@]);
}

impl ExpressionView {
    /// The tokens of the expression, in source order.
    pub open spec fn tokens(self) -> Seq<TokenReferenceView> {
        self.tokens
    }
}

impl VarView {
    /// The tokens of the target, in source order.
    pub open spec fn tokens(self) -> Seq<TokenReferenceView> {
        self.tokens
    }
}

impl TypeInfoView {
    /// The tokens of the node, in source order: those of its first part, then
    /// those of its second part, and so on.
    pub open spec fn tokens(self) -> Seq<TokenReferenceView>
        decreases self,
    {
        match self {
            TypeInfoView::Array { braces, type_info } => seq![braces.open]
                + type_info.tokens()
                + seq![braces.close],
            TypeInfoView::Basic(token) => seq![token],
            TypeInfoView::Callback {
                parentheses,
                arguments,
                arrow,
                return_type,
            } => seq![parentheses.open]
                + type_info_pairs_tokens(arguments)
                + seq![parentheses.close]
                + seq![arrow]
                + return_type.tokens(),
            TypeInfoView::Generic { base, arrows, generics } => seq![base]
                + seq![arrows.open]
                + type_info_pairs_tokens(generics)
                + seq![arrows.close],
            TypeInfoView::Intersection { left, ampersand, right } => left.tokens()
                + seq![ampersand]
                + right.tokens(),
            TypeInfoView::Module { module, punctuation, type_info } => seq![module]
                + seq![punctuation]
                + type_info.tokens(),
            TypeInfoView::Optional { base, question_mark } => base.tokens() + seq![question_mark],
            TypeInfoView::Table { braces, fields } => seq![braces.open]
                + type_field_pairs_tokens(fields)
                + seq![braces.close],
            TypeInfoView::Typeof { typeof_token, parentheses, inner } => seq![typeof_token]
                + seq![parentheses.open]
                + inner.tokens()
                + seq![parentheses.close],
            TypeInfoView::Tuple { parentheses, types } => seq![parentheses.open]
                + type_info_pairs_tokens(types)
                + seq![parentheses.close],
            TypeInfoView::Union { left, pipe, right } => left.tokens()
                + seq![pipe]
                + right.tokens(),
            TypeInfoView::Variadic { ellipse, type_info } => seq![ellipse] + type_info.tokens(),
        }
    }
}

impl IndexedTypeInfoView {
    /// The tokens of the node, in source order: those of its first part, then
    /// those of its second part, and so on.
    pub open spec fn tokens(self) -> Seq<TokenReferenceView>
        decreases self,
    {
        match self {
            IndexedTypeInfoView::Basic(token) => seq![token],
            IndexedTypeInfoView::Generic { base, arrows, generics } => seq![base]
                + seq![arrows.open]
                + type_info_pairs_tokens(generics)
                + seq![arrows.close],
        }
    }
}

impl TypeFieldView {
    /// The tokens of the node, in source order: those of its first part, then
    /// those of its second part, and so on.
    pub open spec fn tokens(self) -> Seq<TokenReferenceView>
        decreases self,
    {
        self.key.tokens() + seq![self.colon] + self.value.tokens()
    }
}

impl TypeFieldKeyView {
    /// The tokens of the node, in source order: those of its first part, then
    /// those of its second part, and so on.
    pub open spec fn tokens(self) -> Seq<TokenReferenceView>
        decreases self,
    {
        match self {
            TypeFieldKeyView::Name(token) => seq![token],
            TypeFieldKeyView::IndexSignature { brackets, inner } => seq![brackets.open]
                + inner.tokens()
                + seq![brackets.close],
        }
    }
}

impl TypeAssertionView {
    /// The tokens of the node, in source order: those of its first part, then
    /// those of its second part, and so on.
    pub open spec fn tokens(self) -> Seq<TokenReferenceView> {
        seq![self.assertion_op] + self.cast_to.tokens()
    }
}

impl TypeDeclarationView {
    /// The tokens of the node, in source order: those of its first part, then
    /// those of its second part, and so on.
    pub open spec fn tokens(self) -> Seq<TokenReferenceView> {
        seq![self.type_token]
            + seq![self.base]
            + optional_tokens(self.generics)
            + seq![self.equal_token]
            + self.declare_as.tokens()
    }
}

impl GenericDeclarationView {
    /// The tokens of the node, in source order: those of its first part, then
    /// those of its second part, and so on.
    pub open spec fn tokens(self) -> Seq<TokenReferenceView> {
        seq![self.arrows.open] + token_pairs_tokens(self.generics) + seq![self.arrows.close]
    }
}

impl TypeSpecifierView {
    /// The tokens of the node, in source order: those of its first part, then
    /// those of its second part, and so on.
    pub open spec fn tokens(self) -> Seq<TokenReferenceView> {
        seq![self.punctuation] + self.type_info.tokens()
    }
}

impl ExportedTypeDeclarationView {
    /// The tokens of the node, in source order: those of its first part, then
    /// those of its second part, and so on.
    pub open spec fn tokens(self) -> Seq<TokenReferenceView> {
        seq![self.export_token] + self.type_declaration.tokens()
    }
}

impl CompoundOpView {
    /// The tokens of the node, in source order: those of its first part, then
    /// those of its second part, and so on.
    pub open spec fn tokens(self) -> Seq<TokenReferenceView> {
        match self {
            CompoundOpView::PlusEqual(token) => seq![token],
            CompoundOpView::MinusEqual(token) => seq![token],
            CompoundOpView::StarEqual(token) => seq![token],
            CompoundOpView::SlashEqual(token) => seq![token],
            CompoundOpView::PercentEqual(token) => seq![token],
            CompoundOpView::CaretEqual(token) => seq![token],
            CompoundOpView::TwoDotsEqual(token) => seq![token],
        }
    }
}

impl CompoundAssignmentView {
    /// The tokens of the node, in source order: those of its first part, then
    /// those of its second part, and so on.
    pub open spec fn tokens(self) -> Seq<TokenReferenceView> {
        self.lhs.tokens() + self.compound_operator.tokens() + self.rhs.tokens()
    }
}

/// The tokens of a declaration of parameters that may be absent: none where
/// there is none.
pub open spec fn optional_tokens(generics: Option<GenericDeclarationView>) -> Seq<
    TokenReferenceView,
> {
    match generics {
        Some(inner) => inner.tokens(),
        None => Seq::empty(),
    }
}

/// The tokens of a punctuated list of [`TypeInfo`]: those of each item, then
/// its punctuation, in order.
pub open spec fn type_info_pairs_tokens(
    pairs: Seq<PairView<TypeInfoView>>
) -> Seq<TokenReferenceView>
    decreases pairs,
{
    if pairs.len() == 0 {
        Seq::empty()
    } else {
        type_info_pairs_tokens(pairs.drop_last()) + (match pairs.last() {
            PairView::End(value) => value.tokens(),
            PairView::Punctuated(value, punctuation) => value.tokens() + seq![punctuation],
        })
    }
}

/// The tokens of a punctuated list of [`TypeField`]: those of each item, then
/// its punctuation, in order.
pub open spec fn type_field_pairs_tokens(
    pairs: Seq<PairView<TypeFieldView>>
) -> Seq<TokenReferenceView>
    decreases pairs,
{
    if pairs.len() == 0 {
        Seq::empty()
    } else {
        type_field_pairs_tokens(pairs.drop_last()) + (match pairs.last() {
            PairView::End(value) => value.tokens(),
            PairView::Punctuated(value, punctuation) => value.tokens() + seq![punctuation],
        })
    }
}

/// The tokens of a punctuated list of [`TokenReference`]: those of each item, then
/// its punctuation, in order.
pub open spec fn token_pairs_tokens(
    pairs: Seq<PairView<TokenReferenceView>>
) -> Seq<TokenReferenceView>
    decreases pairs,
{
    if pairs.len() == 0 {
        Seq::empty()
    } else {
        token_pairs_tokens(pairs.drop_last()) + (match pairs.last() {
            PairView::End(value) => seq![value],
            PairView::Punctuated(value, punctuation) => seq![value] + seq![punctuation],
        })
    }
}

/// Puts the tokens of a punctuated list of [`TypeInfo`] at the end of `out`.
fn collect_type_info_pairs<'n, 'a>(
    list: &'n Punctuated<'a, TypeInfo<'a>>,
    out: &mut Vec<&'n TokenReference<'a>>,
)
    ensures
        references_view(final(out)@) == references_view(old(out)@)
            + type_info_pairs_tokens(type_info_pairs_view(list)),
    decreases list,
{
    let ghost views = type_info_pairs_view(list);
    let mut i: usize = 0;
    while i < list.pairs.len()
        invariant
            i <= list.pairs.len(),
            views == type_info_pairs_view(list),
            references_view(out@) == references_view(old(out)@)
                + type_info_pairs_tokens(views.take(i as int)),
        decreases list.pairs.len() - i,
    {
        match &list.pairs[i] {
            Pair::End(value) => {
                value.collect_tokens(out);
            },
            Pair::Punctuated(value, punctuation) => {
                value.collect_tokens(out);
                push_token(out, punctuation);
            },
        }
        proof {
            let next = views.take(i + 1);
            assert(next.drop_last() =~= views.take(i as int));
            assert(references_view(out@) =~= references_view(old(out)@)
                + type_info_pairs_tokens(next));
        }
        i = i + 1;
    }
    assert(views.take(i as int) =~= views);
}

/// Puts the tokens of a punctuated list of [`TypeField`] at the end of `out`.
fn collect_type_field_pairs<'n, 'a>(
    list: &'n Punctuated<'a, TypeField<'a>>,
    out: &mut Vec<&'n TokenReference<'a>>,
)
    ensures
        references_view(final(out)@) == references_view(old(out)@)
            + type_field_pairs_tokens(type_field_pairs_view(list)),
    decreases list,
{
    let ghost views = type_field_pairs_view(list);
    let mut i: usize = 0;
    while i < list.pairs.len()
        invariant
            i <= list.pairs.len(),
            views == type_field_pairs_view(list),
            references_view(out@) == references_view(old(out)@)
                + type_field_pairs_tokens(views.take(i as int)),
        decreases list.pairs.len() - i,
    {
        match &list.pairs[i] {
            Pair::End(value) => {
                value.collect_tokens(out);
            },
            Pair::Punctuated(value, punctuation) => {
                value.collect_tokens(out);
                push_token(out, punctuation);
            },
        }
        proof {
            let next = views.take(i + 1);
            assert(next.drop_last() =~= views.take(i as int));
            assert(references_view(out@) =~= references_view(old(out)@)
                + type_field_pairs_tokens(next));
        }
        i = i + 1;
    }
    assert(views.take(i as int) =~= views);
}

/// Puts the tokens of a punctuated list of [`TokenReference`] at the end of `out`.
fn collect_token_pairs<'n, 'a>(
    list: &'n Punctuated<'a, TokenReference<'a>>,
    out: &mut Vec<&'n TokenReference<'a>>,
)
    ensures
        references_view(final(out)@) == references_view(old(out)@)
            + token_pairs_tokens(token_pairs_view(list)),
{
    let ghost views = token_pairs_view(list);
    let mut i: usize = 0;
    while i < list.pairs.len()
        invariant
            i <= list.pairs.len(),
            views == token_pairs_view(list),
            references_view(out@) == references_view(old(out)@)
                + token_pairs_tokens(views.take(i as int)),
        decreases list.pairs.len() - i,
    {
        match &list.pairs[i] {
            Pair::End(value) => {
                push_token(out, value);
            },
            Pair::Punctuated(value, punctuation) => {
                push_token(out, value);
                push_token(out, punctuation);
            },
        }
        proof {
            let next = views.take(i + 1);
            assert(next.drop_last() =~= views.take(i as int));
            assert(references_view(out@) =~= references_view(old(out)@) + token_pairs_tokens(next));
        }
        i = i + 1;
    }
    assert(views.take(i as int) =~= views);
}

impl<'a> Expression<'a> {
    /// Puts the tokens of the node at the end of `out`, in source order.
    pub fn collect_tokens<'n>(&'n self, out: &mut Vec<&'n TokenReference<'a>>)
        ensures
            references_view(final(out)@) == references_view(old(out)@) + self@.tokens(),
    {
        let mut i: usize = 0;
        assert(references_view(out@) =~= references_view(old(out)@) + self@.tokens().take(0));
        while i < self.tokens.len()
            invariant
                i <= self.tokens.len(),
                references_view(out@) == references_view(old(out)@) + self@.tokens().take(i as int),
            decreases self.tokens.len() - i,
        {
            push_token(out, &self.tokens[i]);
            assert(references_view(out@) =~= references_view(old(out)@) + self@.tokens().take(
                i + 1,
            ));
            i = i + 1;
        }
        assert(self@.tokens().take(i as int) =~= self@.tokens());
    }
}

impl<'a> Var<'a> {
    /// Puts the tokens of the node at the end of `out`, in source order.
    pub fn collect_tokens<'n>(&'n self, out: &mut Vec<&'n TokenReference<'a>>)
        ensures
            references_view(final(out)@) == references_view(old(out)@) + self@.tokens(),
    {
        let mut i: usize = 0;
        assert(references_view(out@) =~= references_view(old(out)@) + self@.tokens().take(0));
        while i < self.tokens.len()
            invariant
                i <= self.tokens.len(),
                references_view(out@) == references_view(old(out)@) + self@.tokens().take(i as int),
            decreases self.tokens.len() - i,
        {
            push_token(out, &self.tokens[i]);
            assert(references_view(out@) =~= references_view(old(out)@) + self@.tokens().take(
                i + 1,
            ));
            i = i + 1;
        }
        assert(self@.tokens().take(i as int) =~= self@.tokens());
    }
}

impl<'a> TypeInfo<'a> {
    /// Puts the tokens of the node at the end of `out`, in source order.
    pub fn collect_tokens<'n>(&'n self, out: &mut Vec<&'n TokenReference<'a>>)
        ensures
            references_view(final(out)@) == references_view(old(out)@) + self@.tokens(),
        decreases self,
    {
        match self {
            TypeInfo::Array { braces, type_info } => {
                push_token(out, braces.tokens().0);
                type_info.collect_tokens(out);
                push_token(out, braces.tokens().1);
                assert(references_view(out@) =~= references_view(old(out)@) + self@.tokens());
            },
            TypeInfo::Basic(token) => {
                push_token(out, token);
            },
            TypeInfo::Callback { parentheses, arguments, arrow, return_type } => {
                push_token(out, parentheses.tokens().0);
                collect_type_info_pairs(arguments, out);
                push_token(out, parentheses.tokens().1);
                push_token(out, arrow);
                return_type.collect_tokens(out);
                assert(references_view(out@) =~= references_view(old(out)@) + self@.tokens());
            },
            TypeInfo::Generic { base, arrows, generics } => {
                push_token(out, base);
                push_token(out, arrows.tokens().0);
                collect_type_info_pairs(generics, out);
                push_token(out, arrows.tokens().1);
                assert(references_view(out@) =~= references_view(old(out)@) + self@.tokens());
            },
            TypeInfo::Intersection { left, ampersand, right } => {
                left.collect_tokens(out);
                push_token(out, ampersand);
                right.collect_tokens(out);
                assert(references_view(out@) =~= references_view(old(out)@) + self@.tokens());
            },
            TypeInfo::Module { module, punctuation, type_info } => {
                push_token(out, module);
                push_token(out, punctuation);
                type_info.collect_tokens(out);
                assert(references_view(out@) =~= references_view(old(out)@) + self@.tokens());
            },
            TypeInfo::Optional { base, question_mark } => {
                base.collect_tokens(out);
                push_token(out, question_mark);
                assert(references_view(out@) =~= references_view(old(out)@) + self@.tokens());
            },
            TypeInfo::Table { braces, fields } => {
                push_token(out, braces.tokens().0);
                collect_type_field_pairs(fields, out);
                push_token(out, braces.tokens().1);
                assert(references_view(out@) =~= references_view(old(out)@) + self@.tokens());
            },
            TypeInfo::Typeof { typeof_token, parentheses, inner } => {
                push_token(out, typeof_token);
                push_token(out, parentheses.tokens().0);
                inner.collect_tokens(out);
                push_token(out, parentheses.tokens().1);
                assert(references_view(out@) =~= references_view(old(out)@) + self@.tokens());
            },
            TypeInfo::Tuple { parentheses, types } => {
                push_token(out, parentheses.tokens().0);
                collect_type_info_pairs(types, out);
                push_token(out, parentheses.tokens().1);
                assert(references_view(out@) =~= references_view(old(out)@) + self@.tokens());
            },
            TypeInfo::Union { left, pipe, right } => {
                left.collect_tokens(out);
                push_token(out, pipe);
                right.collect_tokens(out);
                assert(references_view(out@) =~= references_view(old(out)@) + self@.tokens());
            },
            TypeInfo::Variadic { ellipse, type_info } => {
                push_token(out, ellipse);
                type_info.collect_tokens(out);
                assert(references_view(out@) =~= references_view(old(out)@) + self@.tokens());
            },
        }
    }

    /// The tokens of the node, in source order.
    pub fn tokens<'n>(&'n self) -> (tokens: Vec<&'n TokenReference<'a>>)
        ensures
            references_view(tokens@) == self@.tokens(),
    {
        let mut out: Vec<&'n TokenReference<'a>> = Vec::new();
        self.collect_tokens(&mut out);
        assert(references_view(out@) =~= self@.tokens());
        out
    }
}

impl<'a> IndexedTypeInfo<'a> {
    /// Puts the tokens of the node at the end of `out`, in source order.
    pub fn collect_tokens<'n>(&'n self, out: &mut Vec<&'n TokenReference<'a>>)
        ensures
            references_view(final(out)@) == references_view(old(out)@) + self@.tokens(),
        decreases self,
    {
        match self {
            IndexedTypeInfo::Basic(token) => {
                push_token(out, token);
            },
            IndexedTypeInfo::Generic { base, arrows, generics } => {
                push_token(out, base);
                push_token(out, arrows.tokens().0);
                collect_type_info_pairs(generics, out);
                push_token(out, arrows.tokens().1);
                assert(references_view(out@) =~= references_view(old(out)@) + self@.tokens());
            },
        }
    }

    /// The tokens of the node, in source order.
    pub fn tokens<'n>(&'n self) -> (tokens: Vec<&'n TokenReference<'a>>)
        ensures
            references_view(tokens@) == self@.tokens(),
    {
        let mut out: Vec<&'n TokenReference<'a>> = Vec::new();
        self.collect_tokens(&mut out);
        assert(references_view(out@) =~= self@.tokens());
        out
    }
}

impl<'a> TypeField<'a> {
    /// Puts the tokens of the node at the end of `out`, in source order.
    pub fn collect_tokens<'n>(&'n self, out: &mut Vec<&'n TokenReference<'a>>)
        ensures
            references_view(final(out)@) == references_view(old(out)@) + self@.tokens(),
        decreases self,
    {
        self.key.collect_tokens(out);
        push_token(out, &self.colon);
        self.value.collect_tokens(out);
        assert(references_view(out@) =~= references_view(old(out)@) + self@.tokens());
    }

    /// The tokens of the node, in source order.
    pub fn tokens<'n>(&'n self) -> (tokens: Vec<&'n TokenReference<'a>>)
        ensures
            references_view(tokens@) == self@.tokens(),
    {
        let mut out: Vec<&'n TokenReference<'a>> = Vec::new();
        self.collect_tokens(&mut out);
        assert(references_view(out@) =~= self@.tokens());
        out
    }
}

impl<'a> TypeFieldKey<'a> {
    /// Puts the tokens of the node at the end of `out`, in source order.
    pub fn collect_tokens<'n>(&'n self, out: &mut Vec<&'n TokenReference<'a>>)
        ensures
            references_view(final(out)@) == references_view(old(out)@) + self@.tokens(),
        decreases self,
    {
        match self {
            TypeFieldKey::Name(token) => {
                push_token(out, token);
            },
            TypeFieldKey::IndexSignature { brackets, inner } => {
                push_token(out, brackets.tokens().0);
                inner.collect_tokens(out);
                push_token(out, brackets.tokens().1);
                assert(references_view(out@) =~= references_view(old(out)@) + self@.tokens());
            },
        }
    }

    /// The tokens of the node, in source order.
    pub fn tokens<'n>(&'n self) -> (tokens: Vec<&'n TokenReference<'a>>)
        ensures
            references_view(tokens@) == self@.tokens(),
    {
        let mut out: Vec<&'n TokenReference<'a>> = Vec::new();
        self.collect_tokens(&mut out);
        assert(references_view(out@) =~= self@.tokens());
        out
    }
}

impl<'a> TypeAssertion<'a> {
    /// Puts the tokens of the node at the end of `out`, in source order.
    pub fn collect_tokens<'n>(&'n self, out: &mut Vec<&'n TokenReference<'a>>)
        ensures
            references_view(final(out)@) == references_view(old(out)@) + self@.tokens(),
    {
        push_token(out, &self.assertion_op);
        self.cast_to.collect_tokens(out);
        assert(references_view(out@) =~= references_view(old(out)@) + self@.tokens());
    }

    /// The tokens of the node, in source order.
    pub fn tokens<'n>(&'n self) -> (tokens: Vec<&'n TokenReference<'a>>)
        ensures
            references_view(tokens@) == self@.tokens(),
    {
        let mut out: Vec<&'n TokenReference<'a>> = Vec::new();
        self.collect_tokens(&mut out);
        assert(references_view(out@) =~= self@.tokens());
        out
    }
}

impl<'a> TypeDeclaration<'a> {
    /// Puts the tokens of the node at the end of `out`, in source order.
    pub fn collect_tokens<'n>(&'n self, out: &mut Vec<&'n TokenReference<'a>>)
        ensures
            references_view(final(out)@) == references_view(old(out)@) + self@.tokens(),
    {
        push_token(out, &self.type_token);
        push_token(out, &self.base);
        match &self.generics {
            Some(inner) => inner.collect_tokens(out),
            None => {},
        }
        push_token(out, &self.equal_token);
        self.declare_as.collect_tokens(out);
        assert(references_view(out@) =~= references_view(old(out)@) + self@.tokens());
    }

    /// The tokens of the node, in source order.
    pub fn tokens<'n>(&'n self) -> (tokens: Vec<&'n TokenReference<'a>>)
        ensures
            references_view(tokens@) == self@.tokens(),
    {
        let mut out: Vec<&'n TokenReference<'a>> = Vec::new();
        self.collect_tokens(&mut out);
        assert(references_view(out@) =~= self@.tokens());
        out
    }
}

impl<'a> GenericDeclaration<'a> {
    /// Puts the tokens of the node at the end of `out`, in source order.
    pub fn collect_tokens<'n>(&'n self, out: &mut Vec<&'n TokenReference<'a>>)
        ensures
            references_view(final(out)@) == references_view(old(out)@) + self@.tokens(),
    {
        push_token(out, self.arrows.tokens().0);
        collect_token_pairs(&self.generics, out);
        push_token(out, self.arrows.tokens().1);
        assert(references_view(out@) =~= references_view(old(out)@) + self@.tokens());
    }

    /// The tokens of the node, in source order.
    pub fn tokens<'n>(&'n self) -> (tokens: Vec<&'n TokenReference<'a>>)
        ensures
            references_view(tokens@) == self@.tokens(),
    {
        let mut out: Vec<&'n TokenReference<'a>> = Vec::new();
        self.collect_tokens(&mut out);
        assert(references_view(out@) =~= self@.tokens());
        out
    }
}

impl<'a> TypeSpecifier<'a> {
    /// Puts the tokens of the node at the end of `out`, in source order.
    pub fn collect_tokens<'n>(&'n self, out: &mut Vec<&'n TokenReference<'a>>)
        ensures
            references_view(final(out)@) == references_view(old(out)@) + self@.tokens(),
    {
        push_token(out, &self.punctuation);
        self.type_info.collect_tokens(out);
        assert(references_view(out@) =~= references_view(old(out)@) + self@.tokens());
    }

    /// The tokens of the node, in source order.
    pub fn tokens<'n>(&'n self) -> (tokens: Vec<&'n TokenReference<'a>>)
        ensures
            references_view(tokens@) == self@.tokens(),
    {
        let mut out: Vec<&'n TokenReference<'a>> = Vec::new();
        self.collect_tokens(&mut out);
        assert(references_view(out@) =~= self@.tokens());
        out
    }
}

impl<'a> ExportedTypeDeclaration<'a> {
    /// Puts the tokens of the node at the end of `out`, in source order.
    pub fn collect_tokens<'n>(&'n self, out: &mut Vec<&'n TokenReference<'a>>)
        ensures
            references_view(final(out)@) == references_view(old(out)@) + self@.tokens(),
    {
        push_token(out, &self.export_token);
        self.type_declaration.collect_tokens(out);
        assert(references_view(out@) =~= references_view(old(out)@) + self@.tokens());
    }

    /// The tokens of the node, in source order.
    pub fn tokens<'n>(&'n self) -> (tokens: Vec<&'n TokenReference<'a>>)
        ensures
            references_view(tokens@) == self@.tokens(),
    {
        let mut out: Vec<&'n TokenReference<'a>> = Vec::new();
        self.collect_tokens(&mut out);
        assert(references_view(out@) =~= self@.tokens());
        out
    }
}

impl<'a> CompoundOp<'a> {
    /// Puts the tokens of the node at the end of `out`, in source order.
    pub fn collect_tokens<'n>(&'n self, out: &mut Vec<&'n TokenReference<'a>>)
        ensures
            references_view(final(out)@) == references_view(old(out)@) + self@.tokens(),
    {
        match self {
            CompoundOp::PlusEqual(token) => {
                push_token(out, token);
            },
            CompoundOp::MinusEqual(token) => {
                push_token(out, token);
            },
            CompoundOp::StarEqual(token) => {
                push_token(out, token);
            },
            CompoundOp::SlashEqual(token) => {
                push_token(out, token);
            },
            CompoundOp::PercentEqual(token) => {
                push_token(out, token);
            },
            CompoundOp::CaretEqual(token) => {
                push_token(out, token);
            },
            CompoundOp::TwoDotsEqual(token) => {
                push_token(out, token);
            },
        }
    }

    /// The tokens of the node, in source order.
    pub fn tokens<'n>(&'n self) -> (tokens: Vec<&'n TokenReference<'a>>)
        ensures
            references_view(tokens@) == self@.tokens(),
    {
        let mut out: Vec<&'n TokenReference<'a>> = Vec::new();
        self.collect_tokens(&mut out);
        assert(references_view(out@) =~= self@.tokens());
        out
    }
}

impl<'a> CompoundAssignment<'a> {
    /// Puts the tokens of the node at the end of `out`, in source order.
    pub fn collect_tokens<'n>(&'n self, out: &mut Vec<&'n TokenReference<'a>>)
        ensures
            references_view(final(out)@) == references_view(old(out)@) + self@.tokens(),
    {
        self.lhs.collect_tokens(out);
        self.compound_operator.collect_tokens(out);
        self.rhs.collect_tokens(out);
        assert(references_view(out@) =~= references_view(old(out)@) + self@.tokens());
    }

    /// The tokens of the node, in source order.
    pub fn tokens<'n>(&'n self) -> (tokens: Vec<&'n TokenReference<'a>>)
        ensures
            references_view(tokens@) == self@.tokens(),
    {
        let mut out: Vec<&'n TokenReference<'a>> = Vec::new();
        self.collect_tokens(&mut out);
        assert(references_view(out@) =~= self@.tokens());
        out
    }
}

} // verus!
