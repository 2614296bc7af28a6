//! Rewriting a tree.
//!
//! A rewrite takes a tree apart from the leaves up and puts it together again
//! out of what a [`Rewriter`] gives back for each token and each node. It takes
//! the tree by value: nobody else can hold it while it is rewritten.

use crate::ast::punctuated::{Pair, PairView, Punctuated};
use crate::ast::span::{ContainedSpan, ContainedSpanView};
use crate::ast::types::{
    token_pair_view, token_pairs_view, type_field_pair_view, type_field_pairs_view,
    type_info_pair_view, type_info_pairs_view, CompoundAssignment, CompoundAssignmentView,
    CompoundOp, CompoundOpView, ExportedTypeDeclaration, ExportedTypeDeclarationView,
    GenericDeclaration, GenericDeclarationView, IndexedTypeInfo, IndexedTypeInfoView,
    TypeAssertion, TypeAssertionView, TypeDeclaration, TypeDeclarationView, TypeField,
    TypeFieldKey, TypeFieldKeyView, TypeFieldView, TypeInfo, TypeInfoView, TypeSpecifier,
    TypeSpecifierView,
};
use crate::ast::{Expression, ExpressionView, Var, VarView};
use crate::tokenizer::{token_references_view, TokenReference, TokenReferenceView};
use vstd::prelude::*;

verus! {

/// What a rewriter gives back for what it is handed, kind by kind.
pub struct Rules {
    pub token: spec_fn(TokenReferenceView) -> TokenReferenceView,
    pub type_info: spec_fn(TypeInfoView) -> TypeInfoView,
    pub indexed_type_info: spec_fn(IndexedTypeInfoView) -> IndexedTypeInfoView,
    pub type_field: spec_fn(TypeFieldView) -> TypeFieldView,
    pub type_field_key: spec_fn(TypeFieldKeyView) -> TypeFieldKeyView,
    pub type_assertion: spec_fn(TypeAssertionView) -> TypeAssertionView,
    pub type_declaration: spec_fn(TypeDeclarationView) -> TypeDeclarationView,
    pub generic_declaration: spec_fn(GenericDeclarationView) -> GenericDeclarationView,
    pub type_specifier: spec_fn(TypeSpecifierView) -> TypeSpecifierView,
    pub exported_type_declaration: spec_fn(
        ExportedTypeDeclarationView
    ) -> ExportedTypeDeclarationView,
    pub compound_op: spec_fn(CompoundOpView) -> CompoundOpView,
    pub compound_assignment: spec_fn(CompoundAssignmentView) -> CompoundAssignmentView,
    pub expression: spec_fn(ExpressionView) -> ExpressionView,
    pub var: spec_fn(VarView) -> VarView,
}

/// Something that makes a new tree out of an old one, part by part.
///
/// A rewrite hands every token and every node to the hook for its kind and
/// puts what the hook gives back in its place. It goes through the tree in
/// source order. A node is handed over after its parts have been rewritten,
/// so a hook sees the new parts. What a hook gives back is not gone through
/// again.
///
/// A rewriter may keep a state and change it in its hooks. What it gives back
/// may not depend on that state: `rules` says what each hook gives back for
/// what it is handed, and no hook changes the rules. `rules` is there for
/// proofs about a rewrite; a rewriter in code that is not verified need not
/// give it.
pub trait Rewriter<'a> {
    /// What the hooks give back for what they are handed.
    open spec fn rules(&self) -> Rules {
        arbitrary()
    }

    /// Called for every token of the tree. Gives back the token to put in its
    /// place.
    fn token(&mut self, token: TokenReference<'a>) -> (replacement: TokenReference<'a>)
        ensures
            replacement@ == (old(self).rules().token)(token@),
            final(self).rules() == old(self).rules(),
    ;

    /// Called for every [`TypeInfo`] of the tree, after its parts have been
    /// rewritten. Gives back the node to put in its place.
    fn type_info(&mut self, node: TypeInfo<'a>) -> (replacement: TypeInfo<'a>)
        ensures
            replacement@ == (old(self).rules().type_info)(node@),
            final(self).rules() == old(self).rules(),
    ;

    /// Called for every [`IndexedTypeInfo`] of the tree, after its parts have been
    /// rewritten. Gives back the node to put in its place.
    fn indexed_type_info(&mut self, node: IndexedTypeInfo<'a>) -> (replacement: IndexedTypeInfo<'a>)
        ensures
            replacement@ == (old(self).rules().indexed_type_info)(node@),
            final(self).rules() == old(self).rules(),
    ;

    /// Called for every [`TypeField`] of the tree, after its parts have been
    /// rewritten. Gives back the node to put in its place.
    fn type_field(&mut self, node: TypeField<'a>) -> (replacement: TypeField<'a>)
        ensures
            replacement@ == (old(self).rules().type_field)(node@),
            final(self).rules() == old(self).rules(),
    ;

    /// Called for every [`TypeFieldKey`] of the tree, after its parts have been
    /// rewritten. Gives back the node to put in its place.
    fn type_field_key(&mut self, node: TypeFieldKey<'a>) -> (replacement: TypeFieldKey<'a>)
        ensures
            replacement@ == (old(self).rules().type_field_key)(node@),
            final(self).rules() == old(self).rules(),
    ;

    /// Called for every [`TypeAssertion`] of the tree, after its parts have been
    /// rewritten. Gives back the node to put in its place.
    fn type_assertion(&mut self, node: TypeAssertion<'a>) -> (replacement: TypeAssertion<'a>)
        ensures
            replacement@ == (old(self).rules().type_assertion)(node@),
            final(self).rules() == old(self).rules(),
    ;

    /// Called for every [`TypeDeclaration`] of the tree, after its parts have been
    /// rewritten. Gives back the node to put in its place.
    fn type_declaration(&mut self, node: TypeDeclaration<'a>) -> (replacement: TypeDeclaration<'a>)
        ensures
            replacement@ == (old(self).rules().type_declaration)(node@),
            final(self).rules() == old(self).rules(),
    ;

    /// Called for every [`GenericDeclaration`] of the tree, after its parts have been
    /// rewritten. Gives back the node to put in its place.
    fn generic_declaration(
        &mut self,
        node: GenericDeclaration<'a>,
    ) -> (replacement: GenericDeclaration<'a>)
        ensures
            replacement@ == (old(self).rules().generic_declaration)(node@),
            final(self).rules() == old(self).rules(),
    ;

    /// Called for every [`TypeSpecifier`] of the tree, after its parts have been
    /// rewritten. Gives back the node to put in its place.
    fn type_specifier(&mut self, node: TypeSpecifier<'a>) -> (replacement: TypeSpecifier<'a>)
        ensures
            replacement@ == (old(self).rules().type_specifier)(node@),
            final(self).rules() == old(self).rules(),
    ;

    /// Called for every [`ExportedTypeDeclaration`] of the tree, after its parts have been
    /// rewritten. Gives back the node to put in its place.
    fn exported_type_declaration(
        &mut self,
        node: ExportedTypeDeclaration<'a>,
    ) -> (replacement: ExportedTypeDeclaration<'a>)
        ensures
            replacement@ == (old(self).rules().exported_type_declaration)(node@),
            final(self).rules() == old(self).rules(),
    ;

    /// Called for every [`CompoundOp`] of the tree, after its parts have been
    /// rewritten. Gives back the node to put in its place.
    fn compound_op(&mut self, node: CompoundOp<'a>) -> (replacement: CompoundOp<'a>)
        ensures
            replacement@ == (old(self).rules().compound_op)(node@),
            final(self).rules() == old(self).rules(),
    ;

    /// Called for every [`CompoundAssignment`] of the tree, after its parts have been
    /// rewritten. Gives back the node to put in its place.
    fn compound_assignment(
        &mut self,
        node: CompoundAssignment<'a>,
    ) -> (replacement: CompoundAssignment<'a>)
        ensures
            replacement@ == (old(self).rules().compound_assignment)(node@),
            final(self).rules() == old(self).rules(),
    ;

    /// Called for every [`Expression`] of the tree, after its parts have been
    /// rewritten. Gives back the node to put in its place.
    fn expression(&mut self, node: Expression<'a>) -> (replacement: Expression<'a>)
        ensures
            replacement@ == (old(self).rules().expression)(node@),
            final(self).rules() == old(self).rules(),
    ;

    /// Called for every [`Var`] of the tree, after its parts have been
    /// rewritten. Gives back the node to put in its place.
    fn var(&mut self, node: Var<'a>) -> (replacement: Var<'a>)
        ensures
            replacement@ == (old(self).rules().var)(node@),
            final(self).rules() == old(self).rules(),
    ;
}

/// What rewriting makes of a pair of delimiters: each of the two rewritten.
pub open spec fn span_rewritten(span: ContainedSpanView, rules: Rules) -> ContainedSpanView {
    ContainedSpanView { open: (rules.token)(span.open), close: (rules.token)(span.close) }
}

/// What rewriting makes of a run of tokens: each of them rewritten.
pub open spec fn tokens_rewritten(tokens: Seq<TokenReferenceView>, rules: Rules) -> Seq<
    TokenReferenceView,
> {
    Seq::new(tokens.len(), |i: int| (rules.token)(tokens[i]))
}

impl ExpressionView {
    /// What rewriting makes of the node: its tokens rewritten, then the node
    /// itself.
    pub open spec fn rewritten(self, rules: Rules) -> ExpressionView {
        (rules.expression)(ExpressionView { tokens: tokens_rewritten(self.tokens, rules) })
    }
}

impl VarView {
    /// What rewriting makes of the node: its tokens rewritten, then the node
    /// itself.
    pub open spec fn rewritten(self, rules: Rules) -> VarView {
        (rules.var)(VarView { tokens: tokens_rewritten(self.tokens, rules) })
    }
}

impl TypeInfoView {
    /// What rewriting makes of the node: its parts rewritten, then the node
    /// itself.
    pub open spec fn rewritten(self, rules: Rules) -> TypeInfoView
        decreases self,
    {
        (rules.type_info)(
            match self {
                TypeInfoView::Array { braces, type_info } => TypeInfoView::Array {
                    braces: span_rewritten(braces, rules),
                    type_info: Box::new(type_info.rewritten(rules)),
                },
                TypeInfoView::Basic(token) => TypeInfoView::Basic(
                    (rules.token)(token),
                ),
                TypeInfoView::Callback {
                    parentheses,
                    arguments,
                    arrow,
                    return_type,
                } => TypeInfoView::Callback {
                    parentheses: span_rewritten(parentheses, rules),
                    arguments: type_info_pairs_rewritten(arguments, rules),
                    arrow: (rules.token)(arrow),
                    return_type: Box::new(return_type.rewritten(rules)),
                },
                TypeInfoView::Generic { base, arrows, generics } => TypeInfoView::Generic {
                    base: (rules.token)(base),
                    arrows: span_rewritten(arrows, rules),
                    generics: type_info_pairs_rewritten(generics, rules),
                },
                TypeInfoView::Intersection {
                    left,
                    ampersand,
                    right,
                } => TypeInfoView::Intersection {
                    left: Box::new(left.rewritten(rules)),
                    ampersand: (rules.token)(ampersand),
                    right: Box::new(right.rewritten(rules)),
                },
                TypeInfoView::Module { module, punctuation, type_info } => TypeInfoView::Module {
                    module: (rules.token)(module),
                    punctuation: (rules.token)(punctuation),
                    type_info: Box::new(type_info.rewritten(rules)),
                },
                TypeInfoView::Optional { base, question_mark } => TypeInfoView::Optional {
                    base: Box::new(base.rewritten(rules)),
                    question_mark: (rules.token)(question_mark),
                },
                TypeInfoView::Table { braces, fields } => TypeInfoView::Table {
                    braces: span_rewritten(braces, rules),
                    fields: type_field_pairs_rewritten(fields, rules),
                },
                TypeInfoView::Typeof { typeof_token, parentheses, inner } => TypeInfoView::Typeof {
                    typeof_token: (rules.token)(typeof_token),
                    parentheses: span_rewritten(parentheses, rules),
                    inner: Box::new(inner.rewritten(rules)),
                },
                TypeInfoView::Tuple { parentheses, types } => TypeInfoView::Tuple {
                    parentheses: span_rewritten(parentheses, rules),
                    types: type_info_pairs_rewritten(types, rules),
                },
                TypeInfoView::Union { left, pipe, right } => TypeInfoView::Union {
                    left: Box::new(left.rewritten(rules)),
                    pipe: (rules.token)(pipe),
                    right: Box::new(right.rewritten(rules)),
                },
                TypeInfoView::Variadic { ellipse, type_info } => TypeInfoView::Variadic {
                    ellipse: (rules.token)(ellipse),
                    type_info: Box::new(type_info.rewritten(rules)),
                },
            },
        )
    }
}

impl IndexedTypeInfoView {
    /// What rewriting makes of the node: its parts rewritten, then the node
    /// itself.
    pub open spec fn rewritten(self, rules: Rules) -> IndexedTypeInfoView
        decreases self,
    {
        (rules.indexed_type_info)(
            match self {
                IndexedTypeInfoView::Basic(token) => IndexedTypeInfoView::Basic(
                    (rules.token)(token),
                ),
                IndexedTypeInfoView::Generic {
                    base,
                    arrows,
                    generics,
                } => IndexedTypeInfoView::Generic {
                    base: (rules.token)(base),
                    arrows: span_rewritten(arrows, rules),
                    generics: type_info_pairs_rewritten(generics, rules),
                },
            },
        )
    }
}

impl TypeFieldView {
    /// What rewriting makes of the node: its parts rewritten, then the node
    /// itself.
    pub open spec fn rewritten(self, rules: Rules) -> TypeFieldView
        decreases self,
    {
        (rules.type_field)(
            TypeFieldView {
                key: self.key.rewritten(rules),
                colon: (rules.token)(self.colon),
                value: self.value.rewritten(rules),
            },
        )
    }
}

impl TypeFieldKeyView {
    /// What rewriting makes of the node: its parts rewritten, then the node
    /// itself.
    pub open spec fn rewritten(self, rules: Rules) -> TypeFieldKeyView
        decreases self,
    {
        (rules.type_field_key)(
            match self {
                TypeFieldKeyView::Name(token) => TypeFieldKeyView::Name(
                    (rules.token)(token),
                ),
                TypeFieldKeyView::IndexSignature {
                    brackets,
                    inner,
                } => TypeFieldKeyView::IndexSignature {
                    brackets: span_rewritten(brackets, rules),
                    inner: inner.rewritten(rules),
                },
            },
        )
    }
}

impl TypeAssertionView {
    /// What rewriting makes of the node: its parts rewritten, then the node
    /// itself.
    pub open spec fn rewritten(self, rules: Rules) -> TypeAssertionView {
        (rules.type_assertion)(
            TypeAssertionView {
                assertion_op: (rules.token)(self.assertion_op),
                cast_to: self.cast_to.rewritten(rules),
            },
        )
    }
}

impl TypeDeclarationView {
    /// What rewriting makes of the node: its parts rewritten, then the node
    /// itself.
    pub open spec fn rewritten(self, rules: Rules) -> TypeDeclarationView {
        (rules.type_declaration)(
            TypeDeclarationView {
                type_token: (rules.token)(self.type_token),
                base: (rules.token)(self.base),
                generics: optional_rewritten(self.generics, rules),
                equal_token: (rules.token)(self.equal_token),
                declare_as: self.declare_as.rewritten(rules),
            },
        )
    }
}

impl GenericDeclarationView {
    /// What rewriting makes of the node: its parts rewritten, then the node
    /// itself.
    pub open spec fn rewritten(self, rules: Rules) -> GenericDeclarationView {
        (rules.generic_declaration)(
            GenericDeclarationView {
                arrows: span_rewritten(self.arrows, rules),
                generics: token_pairs_rewritten(self.generics, rules),
            },
        )
    }
}

impl TypeSpecifierView {
    /// What rewriting makes of the node: its parts rewritten, then the node
    /// itself.
    pub open spec fn rewritten(self, rules: Rules) -> TypeSpecifierView {
        (rules.type_specifier)(
            TypeSpecifierView {
                punctuation: (rules.token)(self.punctuation),
                type_info: self.type_info.rewritten(rules),
            },
        )
    }
}

impl ExportedTypeDeclarationView {
    /// What rewriting makes of the node: its parts rewritten, then the node
    /// itself.
    pub open spec fn rewritten(self, rules: Rules) -> ExportedTypeDeclarationView {
        (rules.exported_type_declaration)(
            ExportedTypeDeclarationView {
                export_token: (rules.token)(self.export_token),
                type_declaration: self.type_declaration.rewritten(rules),
            },
        )
    }
}

impl CompoundOpView {
    /// What rewriting makes of the node: its parts rewritten, then the node
    /// itself.
    pub open spec fn rewritten(self, rules: Rules) -> CompoundOpView {
        (rules.compound_op)(
            match self {
                CompoundOpView::PlusEqual(token) => CompoundOpView::PlusEqual(
                    (rules.token)(token),
                ),
                CompoundOpView::MinusEqual(token) => CompoundOpView::MinusEqual(
                    (rules.token)(token),
                ),
                CompoundOpView::StarEqual(token) => CompoundOpView::StarEqual(
                    (rules.token)(token),
                ),
                CompoundOpView::SlashEqual(token) => CompoundOpView::SlashEqual(
                    (rules.token)(token),
                ),
                CompoundOpView::PercentEqual(token) => CompoundOpView::PercentEqual(
                    (rules.token)(token),
                ),
                CompoundOpView::CaretEqual(token) => CompoundOpView::CaretEqual(
                    (rules.token)(token),
                ),
                CompoundOpView::TwoDotsEqual(token) => CompoundOpView::TwoDotsEqual(
                    (rules.token)(token),
                ),
            },
        )
    }
}

impl CompoundAssignmentView {
    /// What rewriting makes of the node: its parts rewritten, then the node
    /// itself.
    pub open spec fn rewritten(self, rules: Rules) -> CompoundAssignmentView {
        (rules.compound_assignment)(
            CompoundAssignmentView {
                lhs: self.lhs.rewritten(rules),
                compound_operator: self.compound_operator.rewritten(rules),
                rhs: self.rhs.rewritten(rules),
            },
        )
    }
}

/// What rewriting makes of a declaration of parameters that may be absent.
pub open spec fn optional_rewritten(
    generics: Option<GenericDeclarationView>,
    rules: Rules,
) -> Option<GenericDeclarationView> {
    match generics {
        Some(inner) => Some(inner.rewritten(rules)),
        None => None,
    }
}

/// What rewriting makes of a pair of a punctuated list of [`TypeInfo`]: the item
/// rewritten, and its punctuation rewritten.
pub open spec fn type_info_pair_rewritten(
    pair: PairView<TypeInfoView>,
    rules: Rules,
) -> PairView<TypeInfoView>
    decreases pair,
{
    match pair {
        PairView::End(value) => PairView::End(value.rewritten(rules)),
        PairView::Punctuated(value, punctuation) => PairView::Punctuated(
            value.rewritten(rules),
            (rules.token)(punctuation),
        ),
    }
}

/// What rewriting makes of a punctuated list of [`TypeInfo`]: each pair
/// rewritten, in order.
pub open spec fn type_info_pairs_rewritten(
    pairs: Seq<PairView<TypeInfoView>>,
    rules: Rules,
) -> Seq<PairView<TypeInfoView>>
    decreases pairs,
{
    Seq::new(
        pairs.len(),
        |i: int|
            if 0 <= i < pairs.len() {
                type_info_pair_rewritten(pairs[i], rules)
            } else {
                arbitrary()
            },
    )
}

/// What rewriting makes of a pair of a punctuated list of [`TypeField`]: the item
/// rewritten, and its punctuation rewritten.
pub open spec fn type_field_pair_rewritten(
    pair: PairView<TypeFieldView>,
    rules: Rules,
) -> PairView<TypeFieldView>
    decreases pair,
{
    match pair {
        PairView::End(value) => PairView::End(value.rewritten(rules)),
        PairView::Punctuated(value, punctuation) => PairView::Punctuated(
            value.rewritten(rules),
            (rules.token)(punctuation),
        ),
    }
}

/// What rewriting makes of a punctuated list of [`TypeField`]: each pair
/// rewritten, in order.
pub open spec fn type_field_pairs_rewritten(
    pairs: Seq<PairView<TypeFieldView>>,
    rules: Rules,
) -> Seq<PairView<TypeFieldView>>
    decreases pairs,
{
    Seq::new(
        pairs.len(),
        |i: int|
            if 0 <= i < pairs.len() {
                type_field_pair_rewritten(pairs[i], rules)
            } else {
                arbitrary()
            },
    )
}

/// What rewriting makes of a pair of a punctuated list of [`TokenReference`]: the item
/// rewritten, and its punctuation rewritten.
pub open spec fn token_pair_rewritten(
    pair: PairView<TokenReferenceView>,
    rules: Rules,
) -> PairView<TokenReferenceView> {
    match pair {
        PairView::End(value) => PairView::End((rules.token)(value)),
        PairView::Punctuated(value, punctuation) => PairView::Punctuated(
            (rules.token)(value),
            (rules.token)(punctuation),
        ),
    }
}

/// What rewriting makes of a punctuated list of [`TokenReference`]: each pair
/// rewritten, in order.
pub open spec fn token_pairs_rewritten(
    pairs: Seq<PairView<TokenReferenceView>>,
    rules: Rules,
) -> Seq<PairView<TokenReferenceView>> {
    Seq::new(
        pairs.len(),
        |i: int|
            if 0 <= i < pairs.len() {
                token_pair_rewritten(pairs[i], rules)
            } else {
                arbitrary()
            },
    )
}

/// Rewrites each token of a run of tokens, in order.
fn rewrite_tokens<'a, R: Rewriter<'a>>(
    tokens: Vec<TokenReference<'a>>,
    rewriter: &mut R,
) -> (replacement:
    Vec<TokenReference<'a>>)
    ensures
        token_references_view(replacement@) == tokens_rewritten(
            token_references_view(tokens@),
            old(rewriter).rules(),
        ),
        final(rewriter).rules() == old(rewriter).rules(),
{
    let ghost views = token_references_view(tokens@);
    let ghost rules = rewriter.rules();
    let mut replacement: Vec<TokenReference<'a>> = Vec::new();
    for token in iter: tokens
        invariant
            iter.seq() == tokens@,
            views == token_references_view(tokens@),
            rewriter.rules() == rules,
            replacement.len() == iter.index(),
            forall|j: int| 0 <= j < iter.index() ==> replacement@[j]@ == (rules.token)(views[j]),
    {
        replacement.push(rewriter.token(token));
    }
    assert(token_references_view(replacement@) =~= tokens_rewritten(views, rules));
    replacement
}

/// Rewrites each pair of a punctuated list of [`TypeInfo`], in order.
fn rewrite_type_info_pairs<'a, R: Rewriter<'a>>(
    list: Punctuated<'a,
    TypeInfo<'a>>,
    rewriter: &mut R,
) -> (replacement:
    Punctuated<'a, TypeInfo<'a>>)
    ensures
        type_info_pairs_view(&replacement) ==
            type_info_pairs_rewritten(type_info_pairs_view(&list), old(rewriter).rules()),
        final(rewriter).rules() == old(rewriter).rules(),
    decreases list,
{
    let ghost views = type_info_pairs_view(&list);
    let ghost rules = rewriter.rules();
    let mut pairs: Vec<Pair<'a, TypeInfo<'a>>> = Vec::new();
    for pair in iter: list.pairs
        invariant
            iter.seq() == list.pairs@,
            views == type_info_pairs_view(&list),
            rewriter.rules() == rules,
            pairs.len() == iter.index(),
            forall|j: int|
                0 <= j < iter.index() ==> type_info_pair_view(pairs@[j]) ==
                    type_info_pair_rewritten(views[j], rules),
    {
        let rewritten = match pair {
            Pair::End(value) => Pair::End(value.rewrite(rewriter)),
            Pair::Punctuated(value, punctuation) => {
                let value = value.rewrite(rewriter);
                Pair::Punctuated(value, rewriter.token(punctuation))
            },
        };
        pairs.push(rewritten);
    }
    let replacement = Punctuated { pairs };
    assert(type_info_pairs_view(&replacement) =~= type_info_pairs_rewritten(views, rules));
    replacement
}

/// Rewrites each pair of a punctuated list of [`TypeField`], in order.
fn rewrite_type_field_pairs<'a, R: Rewriter<'a>>(
    list: Punctuated<'a,
    TypeField<'a>>,
    rewriter: &mut R,
) -> (replacement:
    Punctuated<'a, TypeField<'a>>)
    ensures
        type_field_pairs_view(&replacement) ==
            type_field_pairs_rewritten(type_field_pairs_view(&list), old(rewriter).rules()),
        final(rewriter).rules() == old(rewriter).rules(),
    decreases list,
{
    let ghost views = type_field_pairs_view(&list);
    let ghost rules = rewriter.rules();
    let mut pairs: Vec<Pair<'a, TypeField<'a>>> = Vec::new();
    for pair in iter: list.pairs
        invariant
            iter.seq() == list.pairs@,
            views == type_field_pairs_view(&list),
            rewriter.rules() == rules,
            pairs.len() == iter.index(),
            forall|j: int|
                0 <= j < iter.index() ==> type_field_pair_view(pairs@[j]) ==
                    type_field_pair_rewritten(views[j], rules),
    {
        let rewritten = match pair {
            Pair::End(value) => Pair::End(value.rewrite(rewriter)),
            Pair::Punctuated(value, punctuation) => {
                let value = value.rewrite(rewriter);
                Pair::Punctuated(value, rewriter.token(punctuation))
            },
        };
        pairs.push(rewritten);
    }
    let replacement = Punctuated { pairs };
    assert(type_field_pairs_view(&replacement) =~= type_field_pairs_rewritten(views, rules));
    replacement
}

/// Rewrites each pair of a punctuated list of [`TokenReference`], in order.
fn rewrite_token_pairs<'a, R: Rewriter<'a>>(
    list: Punctuated<'a,
    TokenReference<'a>>,
    rewriter: &mut R,
) -> (replacement:
    Punctuated<'a, TokenReference<'a>>)
    ensures
        token_pairs_view(&replacement) ==
            token_pairs_rewritten(token_pairs_view(&list), old(rewriter).rules()),
        final(rewriter).rules() == old(rewriter).rules(),
{
    let ghost views = token_pairs_view(&list);
    let ghost rules = rewriter.rules();
    let mut pairs: Vec<Pair<'a, TokenReference<'a>>> = Vec::new();
    for pair in iter: list.pairs
        invariant
            iter.seq() == list.pairs@,
            views == token_pairs_view(&list),
            rewriter.rules() == rules,
            pairs.len() == iter.index(),
            forall|j: int|
                0 <= j < iter.index() ==> token_pair_view(pairs@[j]) ==
                    token_pair_rewritten(views[j], rules),
    {
        let rewritten = match pair {
            Pair::End(value) => Pair::End(rewriter.token(value)),
            Pair::Punctuated(value, punctuation) => {
                let value = rewriter.token(value);
                Pair::Punctuated(value, rewriter.token(punctuation))
            },
        };
        pairs.push(rewritten);
    }
    let replacement = Punctuated { pairs };
    assert(token_pairs_view(&replacement) =~= token_pairs_rewritten(views, rules));
    replacement
}

impl<'a> Expression<'a> {
    /// Rewrites the node: its tokens first, in order, then the node itself.
    pub fn rewrite<R: Rewriter<'a>>(self, rewriter: &mut R) -> (replacement: Self)
        ensures
            replacement@ == self@.rewritten(old(rewriter).rules()),
            final(rewriter).rules() == old(rewriter).rules(),
    {
        let tokens = rewrite_tokens(self.tokens, rewriter);
        rewriter.expression(Expression { tokens })
    }
}

impl<'a> Var<'a> {
    /// Rewrites the node: its tokens first, in order, then the node itself.
    pub fn rewrite<R: Rewriter<'a>>(self, rewriter: &mut R) -> (replacement: Self)
        ensures
            replacement@ == self@.rewritten(old(rewriter).rules()),
            final(rewriter).rules() == old(rewriter).rules(),
    {
        let tokens = rewrite_tokens(self.tokens, rewriter);
        rewriter.var(Var { tokens })
    }
}

impl<'a> TypeInfo<'a> {
    /// Rewrites the node: its parts first, in source order and each in the
    /// same way, then the node itself.
    pub fn rewrite<R: Rewriter<'a>>(self, rewriter: &mut R) -> (replacement: Self)
        ensures
            replacement@ == self@.rewritten(old(rewriter).rules()),
            final(rewriter).rules() == old(rewriter).rules(),
        decreases self,
    {
        let parts = match self {
            TypeInfo::Array { braces, type_info } => {
                let ContainedSpan { tokens: (braces_open, braces_close) } = braces;
                let braces_open = rewriter.token(braces_open);
                let type_info = Box::new((*type_info).rewrite(rewriter));
                let braces_close = rewriter.token(braces_close);
                let braces = ContainedSpan::new(braces_open, braces_close);
                TypeInfo::Array { braces, type_info }
            },
            TypeInfo::Basic(token) => TypeInfo::Basic(rewriter.token(token)),
            TypeInfo::Callback { parentheses, arguments, arrow, return_type } => {
                let ContainedSpan { tokens: (parentheses_open, parentheses_close) } = parentheses;
                let parentheses_open = rewriter.token(parentheses_open);
                let arguments = rewrite_type_info_pairs(arguments, rewriter);
                let parentheses_close = rewriter.token(parentheses_close);
                let parentheses = ContainedSpan::new(parentheses_open, parentheses_close);
                let arrow = rewriter.token(arrow);
                let return_type = Box::new((*return_type).rewrite(rewriter));
                TypeInfo::Callback { parentheses, arguments, arrow, return_type }
            },
            TypeInfo::Generic { base, arrows, generics } => {
                let base = rewriter.token(base);
                let ContainedSpan { tokens: (arrows_open, arrows_close) } = arrows;
                let arrows_open = rewriter.token(arrows_open);
                let generics = rewrite_type_info_pairs(generics, rewriter);
                let arrows_close = rewriter.token(arrows_close);
                let arrows = ContainedSpan::new(arrows_open, arrows_close);
                TypeInfo::Generic { base, arrows, generics }
            },
            TypeInfo::Intersection { left, ampersand, right } => {
                let left = Box::new((*left).rewrite(rewriter));
                let ampersand = rewriter.token(ampersand);
                let right = Box::new((*right).rewrite(rewriter));
                TypeInfo::Intersection { left, ampersand, right }
            },
            TypeInfo::Module { module, punctuation, type_info } => {
                let module = rewriter.token(module);
                let punctuation = rewriter.token(punctuation);
                let type_info = Box::new((*type_info).rewrite(rewriter));
                TypeInfo::Module { module, punctuation, type_info }
            },
            TypeInfo::Optional { base, question_mark } => {
                let base = Box::new((*base).rewrite(rewriter));
                let question_mark = rewriter.token(question_mark);
                TypeInfo::Optional { base, question_mark }
            },
            TypeInfo::Table { braces, fields } => {
                let ContainedSpan { tokens: (braces_open, braces_close) } = braces;
                let braces_open = rewriter.token(braces_open);
                let fields = rewrite_type_field_pairs(fields, rewriter);
                let braces_close = rewriter.token(braces_close);
                let braces = ContainedSpan::new(braces_open, braces_close);
                TypeInfo::Table { braces, fields }
            },
            TypeInfo::Typeof { typeof_token, parentheses, inner } => {
                let typeof_token = rewriter.token(typeof_token);
                let ContainedSpan { tokens: (parentheses_open, parentheses_close) } = parentheses;
                let parentheses_open = rewriter.token(parentheses_open);
                let inner = Box::new((*inner).rewrite(rewriter));
                let parentheses_close = rewriter.token(parentheses_close);
                let parentheses = ContainedSpan::new(parentheses_open, parentheses_close);
                TypeInfo::Typeof { typeof_token, parentheses, inner }
            },
            TypeInfo::Tuple { parentheses, types } => {
                let ContainedSpan { tokens: (parentheses_open, parentheses_close) } = parentheses;
                let parentheses_open = rewriter.token(parentheses_open);
                let types = rewrite_type_info_pairs(types, rewriter);
                let parentheses_close = rewriter.token(parentheses_close);
                let parentheses = ContainedSpan::new(parentheses_open, parentheses_close);
                TypeInfo::Tuple { parentheses, types }
            },
            TypeInfo::Union { left, pipe, right } => {
                let left = Box::new((*left).rewrite(rewriter));
                let pipe = rewriter.token(pipe);
                let right = Box::new((*right).rewrite(rewriter));
                TypeInfo::Union { left, pipe, right }
            },
            TypeInfo::Variadic { ellipse, type_info } => {
                let ellipse = rewriter.token(ellipse);
                let type_info = Box::new((*type_info).rewrite(rewriter));
                TypeInfo::Variadic { ellipse, type_info }
            },
        };
        rewriter.type_info(parts)
    }
}

impl<'a> IndexedTypeInfo<'a> {
    /// Rewrites the node: its parts first, in source order and each in the
    /// same way, then the node itself.
    pub fn rewrite<R: Rewriter<'a>>(self, rewriter: &mut R) -> (replacement: Self)
        ensures
            replacement@ == self@.rewritten(old(rewriter).rules()),
            final(rewriter).rules() == old(rewriter).rules(),
        decreases self,
    {
        let parts = match self {
            IndexedTypeInfo::Basic(token) => IndexedTypeInfo::Basic(rewriter.token(token)),
            IndexedTypeInfo::Generic { base, arrows, generics } => {
                let base = rewriter.token(base);
                let ContainedSpan { tokens: (arrows_open, arrows_close) } = arrows;
                let arrows_open = rewriter.token(arrows_open);
                let generics = rewrite_type_info_pairs(generics, rewriter);
                let arrows_close = rewriter.token(arrows_close);
                let arrows = ContainedSpan::new(arrows_open, arrows_close);
                IndexedTypeInfo::Generic { base, arrows, generics }
            },
        };
        rewriter.indexed_type_info(parts)
    }
}

impl<'a> TypeField<'a> {
    /// Rewrites the node: its parts first, in source order and each in the
    /// same way, then the node itself.
    pub fn rewrite<R: Rewriter<'a>>(self, rewriter: &mut R) -> (replacement: Self)
        ensures
            replacement@ == self@.rewritten(old(rewriter).rules()),
            final(rewriter).rules() == old(rewriter).rules(),
        decreases self,
    {
        let TypeField { key, colon, value } = self;
        let key = key.rewrite(rewriter);
        let colon = rewriter.token(colon);
        let value = value.rewrite(rewriter);
        rewriter.type_field(TypeField { key, colon, value })
    }
}

impl<'a> TypeFieldKey<'a> {
    /// Rewrites the node: its parts first, in source order and each in the
    /// same way, then the node itself.
    pub fn rewrite<R: Rewriter<'a>>(self, rewriter: &mut R) -> (replacement: Self)
        ensures
            replacement@ == self@.rewritten(old(rewriter).rules()),
            final(rewriter).rules() == old(rewriter).rules(),
        decreases self,
    {
        let parts = match self {
            TypeFieldKey::Name(token) => TypeFieldKey::Name(rewriter.token(token)),
            TypeFieldKey::IndexSignature { brackets, inner } => {
                let ContainedSpan { tokens: (brackets_open, brackets_close) } = brackets;
                let brackets_open = rewriter.token(brackets_open);
                let inner = inner.rewrite(rewriter);
                let brackets_close = rewriter.token(brackets_close);
                let brackets = ContainedSpan::new(brackets_open, brackets_close);
                TypeFieldKey::IndexSignature { brackets, inner }
            },
        };
        rewriter.type_field_key(parts)
    }
}

impl<'a> TypeAssertion<'a> {
    /// Rewrites the node: its parts first, in source order and each in the
    /// same way, then the node itself.
    pub fn rewrite<R: Rewriter<'a>>(self, rewriter: &mut R) -> (replacement: Self)
        ensures
            replacement@ == self@.rewritten(old(rewriter).rules()),
            final(rewriter).rules() == old(rewriter).rules(),
    {
        let TypeAssertion { assertion_op, cast_to } = self;
        let assertion_op = rewriter.token(assertion_op);
        let cast_to = cast_to.rewrite(rewriter);
        rewriter.type_assertion(TypeAssertion { assertion_op, cast_to })
    }
}

impl<'a> TypeDeclaration<'a> {
    /// Rewrites the node: its parts first, in source order and each in the
    /// same way, then the node itself.
    pub fn rewrite<R: Rewriter<'a>>(self, rewriter: &mut R) -> (replacement: Self)
        ensures
            replacement@ == self@.rewritten(old(rewriter).rules()),
            final(rewriter).rules() == old(rewriter).rules(),
    {
        let TypeDeclaration { type_token, base, generics, equal_token, declare_as } = self;
        let type_token = rewriter.token(type_token);
        let base = rewriter.token(base);
        let generics = match generics {
            Some(inner) => Some(inner.rewrite(rewriter)),
            None => None,
        };
        let equal_token = rewriter.token(equal_token);
        let declare_as = declare_as.rewrite(rewriter);
        rewriter.type_declaration(
            TypeDeclaration { type_token, base, generics, equal_token, declare_as }
        )
    }
}

impl<'a> GenericDeclaration<'a> {
    /// Rewrites the node: its parts first, in source order and each in the
    /// same way, then the node itself.
    pub fn rewrite<R: Rewriter<'a>>(self, rewriter: &mut R) -> (replacement: Self)
        ensures
            replacement@ == self@.rewritten(old(rewriter).rules()),
            final(rewriter).rules() == old(rewriter).rules(),
    {
        let GenericDeclaration { arrows, generics } = self;
        let ContainedSpan { tokens: (arrows_open, arrows_close) } = arrows;
        let arrows_open = rewriter.token(arrows_open);
        let generics = rewrite_token_pairs(generics, rewriter);
        let arrows_close = rewriter.token(arrows_close);
        let arrows = ContainedSpan::new(arrows_open, arrows_close);
        rewriter.generic_declaration(GenericDeclaration { arrows, generics })
    }
}

impl<'a> TypeSpecifier<'a> {
    /// Rewrites the node: its parts first, in source order and each in the
    /// same way, then the node itself.
    pub fn rewrite<R: Rewriter<'a>>(self, rewriter: &mut R) -> (replacement: Self)
        ensures
            replacement@ == self@.rewritten(old(rewriter).rules()),
            final(rewriter).rules() == old(rewriter).rules(),
    {
        let TypeSpecifier { punctuation, type_info } = self;
        let punctuation = rewriter.token(punctuation);
        let type_info = type_info.rewrite(rewriter);
        rewriter.type_specifier(TypeSpecifier { punctuation, type_info })
    }
}

impl<'a> ExportedTypeDeclaration<'a> {
    /// Rewrites the node: its parts first, in source order and each in the
    /// same way, then the node itself.
    pub fn rewrite<R: Rewriter<'a>>(self, rewriter: &mut R) -> (replacement: Self)
        ensures
            replacement@ == self@.rewritten(old(rewriter).rules()),
            final(rewriter).rules() == old(rewriter).rules(),
    {
        let ExportedTypeDeclaration { export_token, type_declaration } = self;
        let export_token = rewriter.token(export_token);
        let type_declaration = type_declaration.rewrite(rewriter);
        rewriter.exported_type_declaration(
            ExportedTypeDeclaration { export_token, type_declaration }
        )
    }
}

impl<'a> CompoundOp<'a> {
    /// Rewrites the node: its parts first, in source order and each in the
    /// same way, then the node itself.
    pub fn rewrite<R: Rewriter<'a>>(self, rewriter: &mut R) -> (replacement: Self)
        ensures
            replacement@ == self@.rewritten(old(rewriter).rules()),
            final(rewriter).rules() == old(rewriter).rules(),
    {
        let parts = match self {
            CompoundOp::PlusEqual(token) => CompoundOp::PlusEqual(rewriter.token(token)),
            CompoundOp::MinusEqual(token) => CompoundOp::MinusEqual(rewriter.token(token)),
            CompoundOp::StarEqual(token) => CompoundOp::StarEqual(rewriter.token(token)),
            CompoundOp::SlashEqual(token) => CompoundOp::SlashEqual(rewriter.token(token)),
            CompoundOp::PercentEqual(token) => CompoundOp::PercentEqual(rewriter.token(token)),
            CompoundOp::CaretEqual(token) => CompoundOp::CaretEqual(rewriter.token(token)),
            CompoundOp::TwoDotsEqual(token) => CompoundOp::TwoDotsEqual(rewriter.token(token)),
        };
        rewriter.compound_op(parts)
    }
}

impl<'a> CompoundAssignment<'a> {
    /// Rewrites the node: its parts first, in source order and each in the
    /// same way, then the node itself.
    pub fn rewrite<R: Rewriter<'a>>(self, rewriter: &mut R) -> (replacement: Self)
        ensures
            replacement@ == self@.rewritten(old(rewriter).rules()),
            final(rewriter).rules() == old(rewriter).rules(),
    {
        let CompoundAssignment { lhs, compound_operator, rhs } = self;
        let lhs = lhs.rewrite(rewriter);
        let compound_operator = compound_operator.rewrite(rewriter);
        let rhs = rhs.rewrite(rewriter);
        rewriter.compound_assignment(CompoundAssignment { lhs, compound_operator, rhs })
    }
}

/// The rules of a rewriter that gives back what it is handed.
pub open spec fn unchanged_rules() -> Rules {
    Rules {
        token: |token: TokenReferenceView| token,
        type_info: |node: TypeInfoView| node,
        indexed_type_info: |node: IndexedTypeInfoView| node,
        type_field: |node: TypeFieldView| node,
        type_field_key: |node: TypeFieldKeyView| node,
        type_assertion: |node: TypeAssertionView| node,
        type_declaration: |node: TypeDeclarationView| node,
        generic_declaration: |node: GenericDeclarationView| node,
        type_specifier: |node: TypeSpecifierView| node,
        exported_type_declaration: |node: ExportedTypeDeclarationView| node,
        compound_op: |node: CompoundOpView| node,
        compound_assignment: |node: CompoundAssignmentView| node,
        expression: |node: ExpressionView| node,
        var: |node: VarView| node,
    }
}

/// The rewriter that gives back what it is handed.
#[derive(Clone, Copy, Debug)]
pub struct Unchanged;

impl<'a> Rewriter<'a> for Unchanged {
    open spec fn rules(&self) -> Rules {
        unchanged_rules()
    }

    fn token(&mut self, token: TokenReference<'a>) -> (replacement: TokenReference<'a>) {
        token
    }

    fn type_info(&mut self, node: TypeInfo<'a>) -> (replacement: TypeInfo<'a>) {
        node
    }

    fn indexed_type_info(
        &mut self,
        node: IndexedTypeInfo<'a>,
    ) -> (replacement: IndexedTypeInfo<'a>) {
        node
    }

    fn type_field(&mut self, node: TypeField<'a>) -> (replacement: TypeField<'a>) {
        node
    }

    fn type_field_key(&mut self, node: TypeFieldKey<'a>) -> (replacement: TypeFieldKey<'a>) {
        node
    }

    fn type_assertion(&mut self, node: TypeAssertion<'a>) -> (replacement: TypeAssertion<'a>) {
        node
    }

    fn type_declaration(
        &mut self,
        node: TypeDeclaration<'a>,
    ) -> (replacement: TypeDeclaration<'a>) {
        node
    }

    fn generic_declaration(
        &mut self,
        node: GenericDeclaration<'a>,
    ) -> (replacement: GenericDeclaration<'a>) {
        node
    }

    fn type_specifier(&mut self, node: TypeSpecifier<'a>) -> (replacement: TypeSpecifier<'a>) {
        node
    }

    fn exported_type_declaration(
        &mut self,
        node: ExportedTypeDeclaration<'a>,
    ) -> (replacement: ExportedTypeDeclaration<'a>) {
        node
    }

    fn compound_op(&mut self, node: CompoundOp<'a>) -> (replacement: CompoundOp<'a>) {
        node
    }

    fn compound_assignment(
        &mut self,
        node: CompoundAssignment<'a>,
    ) -> (replacement: CompoundAssignment<'a>) {
        node
    }

    fn expression(&mut self, node: Expression<'a>) -> (replacement: Expression<'a>) {
        node
    }

    fn var(&mut self, node: Var<'a>) -> (replacement: Var<'a>) {
        node
    }
}

impl ExpressionView {
    /// A rewrite whose hooks change nothing changes nothing.
    pub proof fn lemma_unchanged(self)
        ensures
            self.rewritten(unchanged_rules()) == self,
    {
        assert(tokens_rewritten(self.tokens, unchanged_rules()) =~= self.tokens);
    }
}

impl VarView {
    /// A rewrite whose hooks change nothing changes nothing.
    pub proof fn lemma_unchanged(self)
        ensures
            self.rewritten(unchanged_rules()) == self,
    {
        assert(tokens_rewritten(self.tokens, unchanged_rules()) =~= self.tokens);
    }
}

impl TypeInfoView {
    /// A rewrite whose hooks change nothing changes nothing: the walk itself
    /// keeps every part where it was.
    pub proof fn lemma_unchanged(self)
        ensures
            self.rewritten(unchanged_rules()) == self,
        decreases self,
    {
        match self {
            TypeInfoView::Array { braces, type_info } => {
                type_info.lemma_unchanged();
            },
            TypeInfoView::Basic(token) => {},
            TypeInfoView::Callback { parentheses, arguments, arrow, return_type } => {
                lemma_type_info_pairs_unchanged(arguments);
                return_type.lemma_unchanged();
            },
            TypeInfoView::Generic { base, arrows, generics } => {
                lemma_type_info_pairs_unchanged(generics);
            },
            TypeInfoView::Intersection { left, ampersand, right } => {
                left.lemma_unchanged();
                right.lemma_unchanged();
            },
            TypeInfoView::Module { module, punctuation, type_info } => {
                type_info.lemma_unchanged();
            },
            TypeInfoView::Optional { base, question_mark } => {
                base.lemma_unchanged();
            },
            TypeInfoView::Table { braces, fields } => {
                lemma_type_field_pairs_unchanged(fields);
            },
            TypeInfoView::Typeof { typeof_token, parentheses, inner } => {
                inner.lemma_unchanged();
            },
            TypeInfoView::Tuple { parentheses, types } => {
                lemma_type_info_pairs_unchanged(types);
            },
            TypeInfoView::Union { left, pipe, right } => {
                left.lemma_unchanged();
                right.lemma_unchanged();
            },
            TypeInfoView::Variadic { ellipse, type_info } => {
                type_info.lemma_unchanged();
            },
        }
    }
}

impl IndexedTypeInfoView {
    /// A rewrite whose hooks change nothing changes nothing: the walk itself
    /// keeps every part where it was.
    pub proof fn lemma_unchanged(self)
        ensures
            self.rewritten(unchanged_rules()) == self,
        decreases self,
    {
        match self {
            IndexedTypeInfoView::Basic(token) => {},
            IndexedTypeInfoView::Generic { base, arrows, generics } => {
                lemma_type_info_pairs_unchanged(generics);
            },
        }
    }
}

impl TypeFieldView {
    /// A rewrite whose hooks change nothing changes nothing: the walk itself
    /// keeps every part where it was.
    pub proof fn lemma_unchanged(self)
        ensures
            self.rewritten(unchanged_rules()) == self,
        decreases self,
    {
        self.key.lemma_unchanged();
        self.value.lemma_unchanged();
    }
}

impl TypeFieldKeyView {
    /// A rewrite whose hooks change nothing changes nothing: the walk itself
    /// keeps every part where it was.
    pub proof fn lemma_unchanged(self)
        ensures
            self.rewritten(unchanged_rules()) == self,
        decreases self,
    {
        match self {
            TypeFieldKeyView::Name(token) => {},
            TypeFieldKeyView::IndexSignature { brackets, inner } => {
                inner.lemma_unchanged();
            },
        }
    }
}

impl TypeAssertionView {
    /// A rewrite whose hooks change nothing changes nothing: the walk itself
    /// keeps every part where it was.
    pub proof fn lemma_unchanged(self)
        ensures
            self.rewritten(unchanged_rules()) == self,
    {
        self.cast_to.lemma_unchanged();
    }
}

impl TypeDeclarationView {
    /// A rewrite whose hooks change nothing changes nothing: the walk itself
    /// keeps every part where it was.
    pub proof fn lemma_unchanged(self)
        ensures
            self.rewritten(unchanged_rules()) == self,
    {
        match self.generics {
            Some(inner) => inner.lemma_unchanged(),
            None => {},
        }
        self.declare_as.lemma_unchanged();
    }
}

impl GenericDeclarationView {
    /// A rewrite whose hooks change nothing changes nothing: the walk itself
    /// keeps every part where it was.
    pub proof fn lemma_unchanged(self)
        ensures
            self.rewritten(unchanged_rules()) == self,
    {
        lemma_token_pairs_unchanged(self.generics);
    }
}

impl TypeSpecifierView {
    /// A rewrite whose hooks change nothing changes nothing: the walk itself
    /// keeps every part where it was.
    pub proof fn lemma_unchanged(self)
        ensures
            self.rewritten(unchanged_rules()) == self,
    {
        self.type_info.lemma_unchanged();
    }
}

impl ExportedTypeDeclarationView {
    /// A rewrite whose hooks change nothing changes nothing: the walk itself
    /// keeps every part where it was.
    pub proof fn lemma_unchanged(self)
        ensures
            self.rewritten(unchanged_rules()) == self,
    {
        self.type_declaration.lemma_unchanged();
    }
}

impl CompoundOpView {
    /// A rewrite whose hooks change nothing changes nothing: the walk itself
    /// keeps every part where it was.
    pub proof fn lemma_unchanged(self)
        ensures
            self.rewritten(unchanged_rules()) == self,
    {
        match self {
            CompoundOpView::PlusEqual(token) => {},
            CompoundOpView::MinusEqual(token) => {},
            CompoundOpView::StarEqual(token) => {},
            CompoundOpView::SlashEqual(token) => {},
            CompoundOpView::PercentEqual(token) => {},
            CompoundOpView::CaretEqual(token) => {},
            CompoundOpView::TwoDotsEqual(token) => {},
        }
    }
}

impl CompoundAssignmentView {
    /// A rewrite whose hooks change nothing changes nothing: the walk itself
    /// keeps every part where it was.
    pub proof fn lemma_unchanged(self)
        ensures
            self.rewritten(unchanged_rules()) == self,
    {
        self.lhs.lemma_unchanged();
        self.compound_operator.lemma_unchanged();
        self.rhs.lemma_unchanged();
    }
}

/// A rewrite whose hooks change nothing changes nothing of a punctuated list
/// of [`TypeInfo`].
pub proof fn lemma_type_info_pairs_unchanged(pairs: Seq<PairView<TypeInfoView>>)
    ensures
        type_info_pairs_rewritten(pairs, unchanged_rules()) == pairs,
    decreases pairs,
{
    assert forall|i: int| 0 <= i < pairs.len() implies type_info_pair_rewritten(
        pairs[i],
        unchanged_rules(),
    )
        == pairs[i] by {
        match pairs[i] {
            PairView::End(value) => value.lemma_unchanged(),
            PairView::Punctuated(value, _) => value.lemma_unchanged(),
        }
    }
    assert(type_info_pairs_rewritten(pairs, unchanged_rules()) =~= pairs);
}

/// A rewrite whose hooks change nothing changes nothing of a punctuated list
/// of [`TypeField`].
pub proof fn lemma_type_field_pairs_unchanged(pairs: Seq<PairView<TypeFieldView>>)
    ensures
        type_field_pairs_rewritten(pairs, unchanged_rules()) == pairs,
    decreases pairs,
{
    assert forall|i: int| 0 <= i < pairs.len() implies type_field_pair_rewritten(
        pairs[i],
        unchanged_rules(),
    )
        == pairs[i] by {
        match pairs[i] {
            PairView::End(value) => value.lemma_unchanged(),
            PairView::Punctuated(value, _) => value.lemma_unchanged(),
        }
    }
    assert(type_field_pairs_rewritten(pairs, unchanged_rules()) =~= pairs);
}

/// A rewrite whose hooks change nothing changes nothing of a punctuated list
/// of [`TokenReference`].
pub proof fn lemma_token_pairs_unchanged(pairs: Seq<PairView<TokenReferenceView>>)
    ensures
        token_pairs_rewritten(pairs, unchanged_rules()) == pairs,
{
    assert forall|i: int| 0 <= i < pairs.len() implies token_pair_rewritten(
        pairs[i],
        unchanged_rules(),
    )
        == pairs[i] by {
    }
    assert(token_pairs_rewritten(pairs, unchanged_rules()) =~= pairs);
}

} // verus!
