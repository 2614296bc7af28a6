//! Walking a tree node by node.
//!
//! A walk goes through a tree depth first and in source order and shows a
//! [`Visitor`] every node, on the way in and on the way out, and every token.
//! It only reads: what it shows borrows from the tree.

use crate::ast::punctuated::{Pair, PairView, Punctuated};
use crate::ast::types::{
    token_pair_view, token_pairs_view, type_field_pair_view, type_field_pairs_view,
    type_info_pair_view, type_info_pairs_view, CompoundAssignment, CompoundAssignmentView,
    CompoundOp, CompoundOpView, ExportedTypeDeclaration, ExportedTypeDeclarationView,
    GenericDeclaration, GenericDeclarationView, IndexedTypeInfo, IndexedTypeInfoView,
    TypeAssertion, TypeAssertionView, TypeDeclaration, TypeDeclarationView, TypeField,
    TypeFieldKey, TypeFieldKeyView, TypeFieldView, TypeInfo, TypeInfoView, TypeSpecifier,
    TypeSpecifierView,
};
use crate::ast::{Expression, ExpressionView, Var, VarView};
use crate::tokenizer::{TokenReference, TokenReferenceView};
use vstd::prelude::*;

verus! {

/// A node of any kind, borrowed from its tree.
#[derive(Debug)]
pub enum NodeRef<'n, 'a> {
    TypeInfo(&'n TypeInfo<'a>),
    IndexedTypeInfo(&'n IndexedTypeInfo<'a>),
    TypeField(&'n TypeField<'a>),
    TypeFieldKey(&'n TypeFieldKey<'a>),
    TypeAssertion(&'n TypeAssertion<'a>),
    TypeDeclaration(&'n TypeDeclaration<'a>),
    GenericDeclaration(&'n GenericDeclaration<'a>),
    TypeSpecifier(&'n TypeSpecifier<'a>),
    ExportedTypeDeclaration(&'n ExportedTypeDeclaration<'a>),
    CompoundOp(&'n CompoundOp<'a>),
    CompoundAssignment(&'n CompoundAssignment<'a>),
    Expression(&'n Expression<'a>),
    Var(&'n Var<'a>),
}

/// What a node of any kind holds, with its text as plain characters.
pub enum NodeView {
    TypeInfo(TypeInfoView),
    IndexedTypeInfo(IndexedTypeInfoView),
    TypeField(TypeFieldView),
    TypeFieldKey(TypeFieldKeyView),
    TypeAssertion(TypeAssertionView),
    TypeDeclaration(TypeDeclarationView),
    GenericDeclaration(GenericDeclarationView),
    TypeSpecifier(TypeSpecifierView),
    ExportedTypeDeclaration(ExportedTypeDeclarationView),
    CompoundOp(CompoundOpView),
    CompoundAssignment(CompoundAssignmentView),
    Expression(ExpressionView),
    Var(VarView),
}

impl<'n, 'a> NodeRef<'n, 'a> {
    /// What the node holds, with its text as plain characters.
    pub open spec fn view(&self) -> NodeView {
        match self {
            NodeRef::TypeInfo(node) => NodeView::TypeInfo(node@),
            NodeRef::IndexedTypeInfo(node) => NodeView::IndexedTypeInfo(node@),
            NodeRef::TypeField(node) => NodeView::TypeField(node@),
            NodeRef::TypeFieldKey(node) => NodeView::TypeFieldKey(node@),
            NodeRef::TypeAssertion(node) => NodeView::TypeAssertion(node@),
            NodeRef::TypeDeclaration(node) => NodeView::TypeDeclaration(node@),
            NodeRef::GenericDeclaration(node) => NodeView::GenericDeclaration(node@),
            NodeRef::TypeSpecifier(node) => NodeView::TypeSpecifier(node@),
            NodeRef::ExportedTypeDeclaration(node) => NodeView::ExportedTypeDeclaration(node@),
            NodeRef::CompoundOp(node) => NodeView::CompoundOp(node@),
            NodeRef::CompoundAssignment(node) => NodeView::CompoundAssignment(node@),
            NodeRef::Expression(node) => NodeView::Expression(node@),
            NodeRef::Var(node) => NodeView::Var(node@),
        }
    }
}

/// One step of a walk over a tree.
pub enum StepView {
    /// The walk came to a node and is about to go through its parts.
    Enter(NodeView),
    /// The walk came to a token.
    Token(TokenReferenceView),
    /// The walk has gone through the parts of a node and leaves it.
    Leave(NodeView),
}

/// Something that is shown a tree step by step.
///
/// A walk calls `enter` when it comes to a node, `token` for each token that
/// the node holds directly, and `leave` when it is through with the node. The
/// parts of a node are walked in source order between its `enter` and its
/// `leave`. `seen` is the record of the calls so far: each call adds one step
/// to it and changes nothing else of it.
pub trait Visitor<'n, 'a> {
    /// The steps that this visitor has been shown, oldest first. It is there for
    /// proofs about a walk; a visitor in code that is not verified need not
    /// give it.
    open spec fn seen(&self) -> Seq<StepView> {
        arbitrary()
    }

    /// Called when the walk comes to `node`, before any of its parts.
    fn enter(&mut self, node: NodeRef<'n, 'a>)
        ensures
            final(self).seen() == old(self).seen().push(StepView::Enter(node@)),
    ;

    /// Called when the walk comes to `token`.
    fn token(&mut self, token: &'n TokenReference<'a>)
        ensures
            final(self).seen() == old(self).seen().push(StepView::Token(token@)),
    ;

    /// Called when the walk leaves `node`, after all of its parts.
    fn leave(&mut self, node: NodeRef<'n, 'a>)
        ensures
            final(self).seen() == old(self).seen().push(StepView::Leave(node@)),
    ;
}

/// One step of a walk, with what it shows borrowed from the tree.
#[derive(Debug)]
pub enum Step<'n, 'a> {
    /// The walk came to a node and is about to go through its parts.
    Enter(NodeRef<'n, 'a>),
    /// The walk came to a token.
    Token(&'n TokenReference<'a>),
    /// The walk has gone through the parts of a node and leaves it.
    Leave(NodeRef<'n, 'a>),
}

impl<'n, 'a> Step<'n, 'a> {
    /// What the step shows, with its text as plain characters.
    pub open spec fn view(&self) -> StepView {
        match self {
            Step::Enter(node) => StepView::Enter(node@),
            Step::Token(token) => StepView::Token(token@),
            Step::Leave(node) => StepView::Leave(node@),
        }
    }
}

/// The views of a run of steps, in order.
pub open spec fn steps_view<'n, 'a>(steps: Seq<Step<'n, 'a>>) -> Seq<StepView> {
    Seq::new(steps.len(), |i: int| steps[i]@)
}

/// A visitor that keeps every step it is shown, so that a walk can be gone
/// through afterwards as a list.
#[derive(Debug)]
pub struct Recorder<'n, 'a> {
    steps: Vec<Step<'n, 'a>>,
}

impl<'n, 'a> Recorder<'n, 'a> {
    /// A recorder that has been shown nothing yet.
    pub fn new() -> (recorder: Recorder<'n, 'a>)
        ensures
            recorder.seen() == Seq::<StepView>::empty(),
    {
        let recorder = Recorder { steps: Vec::new() };
        assert(recorder.seen() =~= Seq::<StepView>::empty());
        recorder
    }

    /// The steps that were shown, oldest first.
    pub fn steps(&self) -> (steps: &Vec<Step<'n, 'a>>)
        ensures
            steps_view(steps@) == self.seen(),
    {
        &self.steps
    }

    /// The steps that were shown, oldest first.
    pub fn into_steps(self) -> (steps: Vec<Step<'n, 'a>>)
        ensures
            steps_view(steps@) == self.seen(),
    {
        self.steps
    }
}

impl<'n, 'a> Visitor<'n, 'a> for Recorder<'n, 'a> {
    closed spec fn seen(&self) -> Seq<StepView> {
        steps_view(self.steps@)
    }

    fn enter(&mut self, node: NodeRef<'n, 'a>) {
        self.steps.push(Step::Enter(node));
        assert(self.seen() =~= old(self).seen().push(StepView::Enter(node@)));
    }

    fn token(&mut self, token: &'n TokenReference<'a>) {
        self.steps.push(Step::Token(token));
        assert(self.seen() =~= old(self).seen().push(StepView::Token(token@)));
    }

    fn leave(&mut self, node: NodeRef<'n, 'a>) {
        self.steps.push(Step::Leave(node));
        assert(self.seen() =~= old(self).seen().push(StepView::Leave(node@)));
    }
}

/// The steps of a walk over a run of tokens: one for each token, in order.
pub open spec fn token_events(tokens: Seq<TokenReferenceView>) -> Seq<StepView> {
    Seq::new(tokens.len(), |i: int| StepView::Token(tokens[i]))
}

impl ExpressionView {
    /// The steps of a walk over the expression: entering it, its tokens in
    /// source order, leaving it.
    pub open spec fn events(self) -> Seq<StepView> {
        seq![StepView::Enter(NodeView::Expression(self))] + token_events(self.tokens)
            + seq![StepView::Leave(NodeView::Expression(self))]
    }
}

impl VarView {
    /// The steps of a walk over the target: entering it, its tokens in
    /// source order, leaving it.
    pub open spec fn events(self) -> Seq<StepView> {
        seq![StepView::Enter(NodeView::Var(self))] + token_events(self.tokens)
            + seq![StepView::Leave(NodeView::Var(self))]
    }
}

impl TypeInfoView {
    /// The steps of a walk over the node: entering it, the steps of its parts
    /// in source order, leaving it.
    pub open spec fn events(self) -> Seq<StepView>
        decreases self,
    {
        seq![StepView::Enter(NodeView::TypeInfo(self))] + (match self {
            TypeInfoView::Array { braces, type_info } => seq![StepView::Token(braces.open)]
                + type_info.events()
                + seq![StepView::Token(braces.close)],
            TypeInfoView::Basic(token) => seq![StepView::Token(token)],
            TypeInfoView::Callback {
                parentheses,
                arguments,
                arrow,
                return_type,
            } => seq![StepView::Token(parentheses.open)]
                + type_info_pairs_events(arguments)
                + seq![StepView::Token(parentheses.close)]
                + seq![StepView::Token(arrow)]
                + return_type.events(),
            TypeInfoView::Generic { base, arrows, generics } => seq![StepView::Token(base)]
                + seq![StepView::Token(arrows.open)]
                + type_info_pairs_events(generics)
                + seq![StepView::Token(arrows.close)],
            TypeInfoView::Intersection { left, ampersand, right } => left.events()
                + seq![StepView::Token(ampersand)]
                + right.events(),
            TypeInfoView::Module { module, punctuation, type_info } => seq![StepView::Token(module)]
                + seq![StepView::Token(punctuation)]
                + type_info.events(),
            TypeInfoView::Optional { base, question_mark } => base.events()
                + seq![StepView::Token(question_mark)],
            TypeInfoView::Table { braces, fields } => seq![StepView::Token(braces.open)]
                + type_field_pairs_events(fields)
                + seq![StepView::Token(braces.close)],
            TypeInfoView::Typeof {
                typeof_token,
                parentheses,
                inner,
            } => seq![StepView::Token(typeof_token)]
                + seq![StepView::Token(parentheses.open)]
                + inner.events()
                + seq![StepView::Token(parentheses.close)],
            TypeInfoView::Tuple { parentheses, types } => seq![StepView::Token(parentheses.open)]
                + type_info_pairs_events(types)
                + seq![StepView::Token(parentheses.close)],
            TypeInfoView::Union { left, pipe, right } => left.events()
                + seq![StepView::Token(pipe)]
                + right.events(),
            TypeInfoView::Variadic { ellipse, type_info } => seq![StepView::Token(ellipse)]
                + type_info.events(),
        }) + seq![StepView::Leave(NodeView::TypeInfo(self))]
    }
}

impl IndexedTypeInfoView {
    /// The steps of a walk over the node: entering it, the steps of its parts
    /// in source order, leaving it.
    pub open spec fn events(self) -> Seq<StepView>
        decreases self,
    {
        seq![StepView::Enter(NodeView::IndexedTypeInfo(self))] + (match self {
            IndexedTypeInfoView::Basic(token) => seq![StepView::Token(token)],
            IndexedTypeInfoView::Generic { base, arrows, generics } => seq![StepView::Token(base)]
                + seq![StepView::Token(arrows.open)]
                + type_info_pairs_events(generics)
                + seq![StepView::Token(arrows.close)],
        }) + seq![StepView::Leave(NodeView::IndexedTypeInfo(self))]
    }
}

impl TypeFieldView {
    /// The steps of a walk over the node: entering it, the steps of its parts
    /// in source order, leaving it.
    pub open spec fn events(self) -> Seq<StepView>
        decreases self,
    {
        seq![StepView::Enter(NodeView::TypeField(self))]
            + (self.key.events() + seq![StepView::Token(self.colon)] + self.value.events())
            + seq![StepView::Leave(NodeView::TypeField(self))]
    }
}

impl TypeFieldKeyView {
    /// The steps of a walk over the node: entering it, the steps of its parts
    /// in source order, leaving it.
    pub open spec fn events(self) -> Seq<StepView>
        decreases self,
    {
        seq![StepView::Enter(NodeView::TypeFieldKey(self))] + (match self {
            TypeFieldKeyView::Name(token) => seq![StepView::Token(token)],
            TypeFieldKeyView::IndexSignature {
                brackets,
                inner,
            } => seq![StepView::Token(brackets.open)]
                + inner.events()
                + seq![StepView::Token(brackets.close)],
        }) + seq![StepView::Leave(NodeView::TypeFieldKey(self))]
    }
}

impl TypeAssertionView {
    /// The steps of a walk over the node: entering it, the steps of its parts
    /// in source order, leaving it.
    pub open spec fn events(self) -> Seq<StepView> {
        seq![StepView::Enter(NodeView::TypeAssertion(self))]
            + (seq![StepView::Token(self.assertion_op)] + self.cast_to.events())
            + seq![StepView::Leave(NodeView::TypeAssertion(self))]
    }
}

impl TypeDeclarationView {
    /// The steps of a walk over the node: entering it, the steps of its parts
    /// in source order, leaving it.
    pub open spec fn events(self) -> Seq<StepView> {
        seq![StepView::Enter(NodeView::TypeDeclaration(self))]
            + (
                seq![StepView::Token(self.type_token)]
                    + seq![StepView::Token(self.base)]
                    + optional_events(self.generics)
                    + seq![StepView::Token(self.equal_token)]
                    + self.declare_as.events()
            )
            + seq![StepView::Leave(NodeView::TypeDeclaration(self))]
    }
}

impl GenericDeclarationView {
    /// The steps of a walk over the node: entering it, the steps of its parts
    /// in source order, leaving it.
    pub open spec fn events(self) -> Seq<StepView> {
        seq![StepView::Enter(NodeView::GenericDeclaration(self))]
            + (
                seq![StepView::Token(self.arrows.open)]
                    + token_pairs_events(self.generics)
                    + seq![StepView::Token(self.arrows.close)]
            )
            + seq![StepView::Leave(NodeView::GenericDeclaration(self))]
    }
}

impl TypeSpecifierView {
    /// The steps of a walk over the node: entering it, the steps of its parts
    /// in source order, leaving it.
    pub open spec fn events(self) -> Seq<StepView> {
        seq![StepView::Enter(NodeView::TypeSpecifier(self))]
            + (seq![StepView::Token(self.punctuation)] + self.type_info.events())
            + seq![StepView::Leave(NodeView::TypeSpecifier(self))]
    }
}

impl ExportedTypeDeclarationView {
    /// The steps of a walk over the node: entering it, the steps of its parts
    /// in source order, leaving it.
    pub open spec fn events(self) -> Seq<StepView> {
        seq![StepView::Enter(NodeView::ExportedTypeDeclaration(self))]
            + (seq![StepView::Token(self.export_token)] + self.type_declaration.events())
            + seq![StepView::Leave(NodeView::ExportedTypeDeclaration(self))]
    }
}

impl CompoundOpView {
    /// The steps of a walk over the node: entering it, the steps of its parts
    /// in source order, leaving it.
    pub open spec fn events(self) -> Seq<StepView> {
        seq![StepView::Enter(NodeView::CompoundOp(self))] + (match self {
            CompoundOpView::PlusEqual(token) => seq![StepView::Token(token)],
            CompoundOpView::MinusEqual(token) => seq![StepView::Token(token)],
            CompoundOpView::StarEqual(token) => seq![StepView::Token(token)],
            CompoundOpView::SlashEqual(token) => seq![StepView::Token(token)],
            CompoundOpView::PercentEqual(token) => seq![StepView::Token(token)],
            CompoundOpView::CaretEqual(token) => seq![StepView::Token(token)],
            CompoundOpView::TwoDotsEqual(token) => seq![StepView::Token(token)],
        }) + seq![StepView::Leave(NodeView::CompoundOp(self))]
    }
}

impl CompoundAssignmentView {
    /// The steps of a walk over the node: entering it, the steps of its parts
    /// in source order, leaving it.
    pub open spec fn events(self) -> Seq<StepView> {
        seq![StepView::Enter(NodeView::CompoundAssignment(self))]
            + (self.lhs.events() + self.compound_operator.events() + self.rhs.events())
            + seq![StepView::Leave(NodeView::CompoundAssignment(self))]
    }
}

/// The steps of a walk over a declaration of parameters that may be absent:
/// none where there is none.
pub open spec fn optional_events(generics: Option<GenericDeclarationView>) -> Seq<StepView> {
    match generics {
        Some(inner) => inner.events(),
        None => Seq::empty(),
    }
}

/// The steps of a walk over a punctuated list of [`TypeInfo`]: those of each
/// item, then its punctuation, in order.
pub open spec fn type_info_pairs_events(pairs: Seq<PairView<TypeInfoView>>) -> Seq<StepView>
    decreases pairs,
{
    if pairs.len() == 0 {
        Seq::empty()
    } else {
        type_info_pairs_events(pairs.drop_last()) + (match pairs.last() {
            PairView::End(value) => value.events(),
            PairView::Punctuated(value, punctuation) => value.events() + seq![
                StepView::Token(punctuation),
            ],
        })
    }
}

/// The steps of a walk over a punctuated list of [`TypeField`]: those of each
/// item, then its punctuation, in order.
pub open spec fn type_field_pairs_events(pairs: Seq<PairView<TypeFieldView>>) -> Seq<StepView>
    decreases pairs,
{
    if pairs.len() == 0 {
        Seq::empty()
    } else {
        type_field_pairs_events(pairs.drop_last()) + (match pairs.last() {
            PairView::End(value) => value.events(),
            PairView::Punctuated(value, punctuation) => value.events() + seq![
                StepView::Token(punctuation),
            ],
        })
    }
}

/// The steps of a walk over a punctuated list of [`TokenReference`]: those of each
/// item, then its punctuation, in order.
pub open spec fn token_pairs_events(pairs: Seq<PairView<TokenReferenceView>>) -> Seq<StepView>
    decreases pairs,
{
    if pairs.len() == 0 {
        Seq::empty()
    } else {
        token_pairs_events(pairs.drop_last()) + (match pairs.last() {
            PairView::End(value) => seq![StepView::Token(value)],
            PairView::Punctuated(value, punctuation) => seq![StepView::Token(value)] + seq![
                StepView::Token(punctuation),
            ],
        })
    }
}

/// Walks a punctuated list of [`TypeInfo`].
fn visit_type_info_pairs<'n, 'a, V: Visitor<'n, 'a>>(
    list: &'n Punctuated<'a, TypeInfo<'a>>,
    visitor: &mut V,
)
    ensures
        final(visitor).seen() == old(visitor).seen()
            + type_info_pairs_events(type_info_pairs_view(list)),
    decreases list,
{
    let ghost views = type_info_pairs_view(list);
    let mut i: usize = 0;
    while i < list.pairs.len()
        invariant
            i <= list.pairs.len(),
            views == type_info_pairs_view(list),
            visitor.seen() == old(visitor).seen() + type_info_pairs_events(views.take(i as int)),
        decreases list.pairs.len() - i,
    {
        match &list.pairs[i] {
            Pair::End(value) => {
                value.visit(visitor);
            },
            Pair::Punctuated(value, punctuation) => {
                value.visit(visitor);
                visitor.token(punctuation);
            },
        }
        proof {
            let next = views.take(i + 1);
            assert(next.drop_last() =~= views.take(i as int));
            assert(visitor.seen() =~= old(visitor).seen() + type_info_pairs_events(next));
        }
        i = i + 1;
    }
    assert(views.take(i as int) =~= views);
}

/// Walks a punctuated list of [`TypeField`].
fn visit_type_field_pairs<'n, 'a, V: Visitor<'n, 'a>>(
    list: &'n Punctuated<'a, TypeField<'a>>,
    visitor: &mut V,
)
    ensures
        final(visitor).seen() == old(visitor).seen()
            + type_field_pairs_events(type_field_pairs_view(list)),
    decreases list,
{
    let ghost views = type_field_pairs_view(list);
    let mut i: usize = 0;
    while i < list.pairs.len()
        invariant
            i <= list.pairs.len(),
            views == type_field_pairs_view(list),
            visitor.seen() == old(visitor).seen() + type_field_pairs_events(views.take(i as int)),
        decreases list.pairs.len() - i,
    {
        match &list.pairs[i] {
            Pair::End(value) => {
                value.visit(visitor);
            },
            Pair::Punctuated(value, punctuation) => {
                value.visit(visitor);
                visitor.token(punctuation);
            },
        }
        proof {
            let next = views.take(i + 1);
            assert(next.drop_last() =~= views.take(i as int));
            assert(visitor.seen() =~= old(visitor).seen() + type_field_pairs_events(next));
        }
        i = i + 1;
    }
    assert(views.take(i as int) =~= views);
}

/// Walks a punctuated list of [`TokenReference`].
fn visit_token_pairs<'n, 'a, V: Visitor<'n, 'a>>(
    list: &'n Punctuated<'a, TokenReference<'a>>,
    visitor: &mut V,
)
    ensures
        final(visitor).seen() == old(visitor).seen() + token_pairs_events(token_pairs_view(list)),
{
    let ghost views = token_pairs_view(list);
    let mut i: usize = 0;
    while i < list.pairs.len()
        invariant
            i <= list.pairs.len(),
            views == token_pairs_view(list),
            visitor.seen() == old(visitor).seen() + token_pairs_events(views.take(i as int)),
        decreases list.pairs.len() - i,
    {
        match &list.pairs[i] {
            Pair::End(value) => {
                visitor.token(value);
            },
            Pair::Punctuated(value, punctuation) => {
                visitor.token(value);
                visitor.token(punctuation);
            },
        }
        proof {
            let next = views.take(i + 1);
            assert(next.drop_last() =~= views.take(i as int));
            assert(visitor.seen() =~= old(visitor).seen() + token_pairs_events(next));
        }
        i = i + 1;
    }
    assert(views.take(i as int) =~= views);
}

impl<'a> Expression<'a> {
    /// Walks the node: shows `visitor` the node, then its tokens in source
    /// order, then the node once more on leaving.
    pub fn visit<'n, V: Visitor<'n, 'a>>(&'n self, visitor: &mut V)
        ensures
            final(visitor).seen() == old(visitor).seen() + self@.events(),
    {
        visitor.enter(NodeRef::Expression(self));
        let ghost entered = visitor.seen();
        let mut i: usize = 0;
        assert(visitor.seen() =~= entered + token_events(self@.tokens.take(0)));
        while i < self.tokens.len()
            invariant
                i <= self.tokens.len(),
                visitor.seen() == entered + token_events(self@.tokens.take(i as int)),
            decreases self.tokens.len() - i,
        {
            visitor.token(&self.tokens[i]);
            assert(visitor.seen() =~= entered + token_events(self@.tokens.take(i + 1)));
            i = i + 1;
        }
        assert(self@.tokens.take(i as int) =~= self@.tokens);
        visitor.leave(NodeRef::Expression(self));
        assert(visitor.seen() =~= old(visitor).seen() + self@.events());
    }
}

impl<'a> Var<'a> {
    /// Walks the node: shows `visitor` the node, then its tokens in source
    /// order, then the node once more on leaving.
    pub fn visit<'n, V: Visitor<'n, 'a>>(&'n self, visitor: &mut V)
        ensures
            final(visitor).seen() == old(visitor).seen() + self@.events(),
    {
        visitor.enter(NodeRef::Var(self));
        let ghost entered = visitor.seen();
        let mut i: usize = 0;
        assert(visitor.seen() =~= entered + token_events(self@.tokens.take(0)));
        while i < self.tokens.len()
            invariant
                i <= self.tokens.len(),
                visitor.seen() == entered + token_events(self@.tokens.take(i as int)),
            decreases self.tokens.len() - i,
        {
            visitor.token(&self.tokens[i]);
            assert(visitor.seen() =~= entered + token_events(self@.tokens.take(i + 1)));
            i = i + 1;
        }
        assert(self@.tokens.take(i as int) =~= self@.tokens);
        visitor.leave(NodeRef::Var(self));
        assert(visitor.seen() =~= old(visitor).seen() + self@.events());
    }
}

impl<'a> TypeInfo<'a> {
    /// Walks the node: shows `visitor` the node, then its parts in source
    /// order, each walked in the same way, then the node once more on
    /// leaving.
    pub fn visit<'n, V: Visitor<'n, 'a>>(&'n self, visitor: &mut V)
        ensures
            final(visitor).seen() == old(visitor).seen() + self@.events(),
        decreases self,
    {
        visitor.enter(NodeRef::TypeInfo(self));
        match self {
            TypeInfo::Array { braces, type_info } => {
                visitor.token(braces.tokens().0);
                type_info.visit(visitor);
                visitor.token(braces.tokens().1);
            },
            TypeInfo::Basic(token) => {
                visitor.token(token);
            },
            TypeInfo::Callback { parentheses, arguments, arrow, return_type } => {
                visitor.token(parentheses.tokens().0);
                visit_type_info_pairs(arguments, visitor);
                visitor.token(parentheses.tokens().1);
                visitor.token(arrow);
                return_type.visit(visitor);
            },
            TypeInfo::Generic { base, arrows, generics } => {
                visitor.token(base);
                visitor.token(arrows.tokens().0);
                visit_type_info_pairs(generics, visitor);
                visitor.token(arrows.tokens().1);
            },
            TypeInfo::Intersection { left, ampersand, right } => {
                left.visit(visitor);
                visitor.token(ampersand);
                right.visit(visitor);
            },
            TypeInfo::Module { module, punctuation, type_info } => {
                visitor.token(module);
                visitor.token(punctuation);
                type_info.visit(visitor);
            },
            TypeInfo::Optional { base, question_mark } => {
                base.visit(visitor);
                visitor.token(question_mark);
            },
            TypeInfo::Table { braces, fields } => {
                visitor.token(braces.tokens().0);
                visit_type_field_pairs(fields, visitor);
                visitor.token(braces.tokens().1);
            },
            TypeInfo::Typeof { typeof_token, parentheses, inner } => {
                visitor.token(typeof_token);
                visitor.token(parentheses.tokens().0);
                inner.visit(visitor);
                visitor.token(parentheses.tokens().1);
            },
            TypeInfo::Tuple { parentheses, types } => {
                visitor.token(parentheses.tokens().0);
                visit_type_info_pairs(types, visitor);
                visitor.token(parentheses.tokens().1);
            },
            TypeInfo::Union { left, pipe, right } => {
                left.visit(visitor);
                visitor.token(pipe);
                right.visit(visitor);
            },
            TypeInfo::Variadic { ellipse, type_info } => {
                visitor.token(ellipse);
                type_info.visit(visitor);
            },
        }
        visitor.leave(NodeRef::TypeInfo(self));
        assert(visitor.seen() =~= old(visitor).seen() + self@.events());
    }
}

impl<'a> IndexedTypeInfo<'a> {
    /// Walks the node: shows `visitor` the node, then its parts in source
    /// order, each walked in the same way, then the node once more on
    /// leaving.
    pub fn visit<'n, V: Visitor<'n, 'a>>(&'n self, visitor: &mut V)
        ensures
            final(visitor).seen() == old(visitor).seen() + self@.events(),
        decreases self,
    {
        visitor.enter(NodeRef::IndexedTypeInfo(self));
        match self {
            IndexedTypeInfo::Basic(token) => {
                visitor.token(token);
            },
            IndexedTypeInfo::Generic { base, arrows, generics } => {
                visitor.token(base);
                visitor.token(arrows.tokens().0);
                visit_type_info_pairs(generics, visitor);
                visitor.token(arrows.tokens().1);
            },
        }
        visitor.leave(NodeRef::IndexedTypeInfo(self));
        assert(visitor.seen() =~= old(visitor).seen() + self@.events());
    }
}

impl<'a> TypeField<'a> {
    /// Walks the node: shows `visitor` the node, then its parts in source
    /// order, each walked in the same way, then the node once more on
    /// leaving.
    pub fn visit<'n, V: Visitor<'n, 'a>>(&'n self, visitor: &mut V)
        ensures
            final(visitor).seen() == old(visitor).seen() + self@.events(),
        decreases self,
    {
        visitor.enter(NodeRef::TypeField(self));
        self.key.visit(visitor);
        visitor.token(&self.colon);
        self.value.visit(visitor);
        visitor.leave(NodeRef::TypeField(self));
        assert(visitor.seen() =~= old(visitor).seen() + self@.events());
    }
}

impl<'a> TypeFieldKey<'a> {
    /// Walks the node: shows `visitor` the node, then its parts in source
    /// order, each walked in the same way, then the node once more on
    /// leaving.
    pub fn visit<'n, V: Visitor<'n, 'a>>(&'n self, visitor: &mut V)
        ensures
            final(visitor).seen() == old(visitor).seen() + self@.events(),
        decreases self,
    {
        visitor.enter(NodeRef::TypeFieldKey(self));
        match self {
            TypeFieldKey::Name(token) => {
                visitor.token(token);
            },
            TypeFieldKey::IndexSignature { brackets, inner } => {
                visitor.token(brackets.tokens().0);
                inner.visit(visitor);
                visitor.token(brackets.tokens().1);
            },
        }
        visitor.leave(NodeRef::TypeFieldKey(self));
        assert(visitor.seen() =~= old(visitor).seen() + self@.events());
    }
}

impl<'a> TypeAssertion<'a> {
    /// Walks the node: shows `visitor` the node, then its parts in source
    /// order, each walked in the same way, then the node once more on
    /// leaving.
    pub fn visit<'n, V: Visitor<'n, 'a>>(&'n self, visitor: &mut V)
        ensures
            final(visitor).seen() == old(visitor).seen() + self@.events(),
    {
        visitor.enter(NodeRef::TypeAssertion(self));
        visitor.token(&self.assertion_op);
        self.cast_to.visit(visitor);
        visitor.leave(NodeRef::TypeAssertion(self));
        assert(visitor.seen() =~= old(visitor).seen() + self@.events());
    }
}

impl<'a> TypeDeclaration<'a> {
    /// Walks the node: shows `visitor` the node, then its parts in source
    /// order, each walked in the same way, then the node once more on
    /// leaving.
    pub fn visit<'n, V: Visitor<'n, 'a>>(&'n self, visitor: &mut V)
        ensures
            final(visitor).seen() == old(visitor).seen() + self@.events(),
    {
        visitor.enter(NodeRef::TypeDeclaration(self));
        visitor.token(&self.type_token);
        visitor.token(&self.base);
        match &self.generics {
            Some(inner) => inner.visit(visitor),
            None => {},
        }
        visitor.token(&self.equal_token);
        self.declare_as.visit(visitor);
        visitor.leave(NodeRef::TypeDeclaration(self));
        assert(visitor.seen() =~= old(visitor).seen() + self@.events());
    }
}

impl<'a> GenericDeclaration<'a> {
    /// Walks the node: shows `visitor` the node, then its parts in source
    /// order, each walked in the same way, then the node once more on
    /// leaving.
    pub fn visit<'n, V: Visitor<'n, 'a>>(&'n self, visitor: &mut V)
        ensures
            final(visitor).seen() == old(visitor).seen() + self@.events(),
    {
        visitor.enter(NodeRef::GenericDeclaration(self));
        visitor.token(self.arrows.tokens().0);
        visit_token_pairs(&self.generics, visitor);
        visitor.token(self.arrows.tokens().1);
        visitor.leave(NodeRef::GenericDeclaration(self));
        assert(visitor.seen() =~= old(visitor).seen() + self@.events());
    }
}

impl<'a> TypeSpecifier<'a> {
    /// Walks the node: shows `visitor` the node, then its parts in source
    /// order, each walked in the same way, then the node once more on
    /// leaving.
    pub fn visit<'n, V: Visitor<'n, 'a>>(&'n self, visitor: &mut V)
        ensures
            final(visitor).seen() == old(visitor).seen() + self@.events(),
    {
        visitor.enter(NodeRef::TypeSpecifier(self));
        visitor.token(&self.punctuation);
        self.type_info.visit(visitor);
        visitor.leave(NodeRef::TypeSpecifier(self));
        assert(visitor.seen() =~= old(visitor).seen() + self@.events());
    }
}

impl<'a> ExportedTypeDeclaration<'a> {
    /// Walks the node: shows `visitor` the node, then its parts in source
    /// order, each walked in the same way, then the node once more on
    /// leaving.
    pub fn visit<'n, V: Visitor<'n, 'a>>(&'n self, visitor: &mut V)
        ensures
            final(visitor).seen() == old(visitor).seen() + self@.events(),
    {
        visitor.enter(NodeRef::ExportedTypeDeclaration(self));
        visitor.token(&self.export_token);
        self.type_declaration.visit(visitor);
        visitor.leave(NodeRef::ExportedTypeDeclaration(self));
        assert(visitor.seen() =~= old(visitor).seen() + self@.events());
    }
}

impl<'a> CompoundOp<'a> {
    /// Walks the node: shows `visitor` the node, then its parts in source
    /// order, each walked in the same way, then the node once more on
    /// leaving.
    pub fn visit<'n, V: Visitor<'n, 'a>>(&'n self, visitor: &mut V)
        ensures
            final(visitor).seen() == old(visitor).seen() + self@.events(),
    {
        visitor.enter(NodeRef::CompoundOp(self));
        match self {
            CompoundOp::PlusEqual(token) => {
                visitor.token(token);
            },
            CompoundOp::MinusEqual(token) => {
                visitor.token(token);
            },
            CompoundOp::StarEqual(token) => {
                visitor.token(token);
            },
            CompoundOp::SlashEqual(token) => {
                visitor.token(token);
            },
            CompoundOp::PercentEqual(token) => {
                visitor.token(token);
            },
            CompoundOp::CaretEqual(token) => {
                visitor.token(token);
            },
            CompoundOp::TwoDotsEqual(token) => {
                visitor.token(token);
            },
        }
        visitor.leave(NodeRef::CompoundOp(self));
        assert(visitor.seen() =~= old(visitor).seen() + self@.events());
    }
}

impl<'a> CompoundAssignment<'a> {
    /// Walks the node: shows `visitor` the node, then its parts in source
    /// order, each walked in the same way, then the node once more on
    /// leaving.
    pub fn visit<'n, V: Visitor<'n, 'a>>(&'n self, visitor: &mut V)
        ensures
            final(visitor).seen() == old(visitor).seen() + self@.events(),
    {
        visitor.enter(NodeRef::CompoundAssignment(self));
        self.lhs.visit(visitor);
        self.compound_operator.visit(visitor);
        self.rhs.visit(visitor);
        visitor.leave(NodeRef::CompoundAssignment(self));
        assert(visitor.seen() =~= old(visitor).seen() + self@.events());
    }
}

} // verus!
