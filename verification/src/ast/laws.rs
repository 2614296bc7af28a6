//! What holds of every tree: how its text, its tokens and its span hang
//! together.

use crate::ast::punctuated::PairView;
use crate::ast::types::{
    CompoundAssignmentView, CompoundOpView, ExportedTypeDeclarationView, GenericDeclarationView,
    IndexedTypeInfoView, TypeAssertionView, TypeDeclarationView, TypeFieldKeyView, TypeFieldView,
    TypeInfoView, TypeSpecifierView,
};
use crate::ast::render::{
    token_pairs_rendered, type_field_pairs_rendered, type_info_pairs_rendered,
};
use crate::ast::tokens::{
    optional_tokens, token_pairs_tokens, type_field_pairs_tokens, type_info_pairs_tokens,
};
use crate::ast::{ExpressionView, VarView};
use crate::tokenizer::{
    lemma_token_references_rendered_concat, lemma_token_references_rendered_one,
    token_references_rendered, TokenReferenceView,
};
use vstd::prelude::*;

verus! {

impl ExpressionView {
    /// The text of the node is the text of its tokens, in source order.
    pub proof fn lemma_rendered_by_tokens(self)
        ensures
            self.rendered() == token_references_rendered(self.tokens()),
    {
    }
}

impl VarView {
    /// The text of the node is the text of its tokens, in source order.
    pub proof fn lemma_rendered_by_tokens(self)
        ensures
            self.rendered() == token_references_rendered(self.tokens()),
    {
    }
}

impl TypeInfoView {
    /// The text of the node is the text of its tokens, in source order: the
    /// leading trivia, the text and the trailing trivia of each, with
    /// nothing between them. So a node whose tokens are a source text cut
    /// into tokens renders as that text.
    pub proof fn lemma_rendered_by_tokens(self)
        ensures
            self.rendered() == token_references_rendered(self.tokens()),
        decreases self,
    {
        match self {
            TypeInfoView::Array { braces, type_info } => {
                lemma_token_references_rendered_one(braces.open);
                type_info.lemma_rendered_by_tokens();
                lemma_token_references_rendered_concat(seq![braces.open], type_info.tokens());
                lemma_token_references_rendered_one(braces.close);
                lemma_token_references_rendered_concat(
                    seq![braces.open] + type_info.tokens(),
                    seq![braces.close],
                );
            },
            TypeInfoView::Basic(token) => {
                lemma_token_references_rendered_one(token);
            },
            TypeInfoView::Callback { parentheses, arguments, arrow, return_type } => {
                lemma_token_references_rendered_one(parentheses.open);
                lemma_type_info_pairs_rendered_by_tokens(arguments);
                lemma_token_references_rendered_concat(
                    seq![parentheses.open],
                    type_info_pairs_tokens(arguments),
                );
                lemma_token_references_rendered_one(parentheses.close);
                lemma_token_references_rendered_concat(
                    seq![parentheses.open] + type_info_pairs_tokens(arguments),
                    seq![parentheses.close],
                );
                lemma_token_references_rendered_one(arrow);
                lemma_token_references_rendered_concat(
                    seq![parentheses.open]
                        + type_info_pairs_tokens(arguments)
                        + seq![parentheses.close],
                    seq![arrow],
                );
                return_type.lemma_rendered_by_tokens();
                lemma_token_references_rendered_concat(
                    seq![parentheses.open]
                        + type_info_pairs_tokens(arguments)
                        + seq![parentheses.close]
                        + seq![arrow],
                    return_type.tokens(),
                );
            },
            TypeInfoView::Generic { base, arrows, generics } => {
                lemma_token_references_rendered_one(base);
                lemma_token_references_rendered_one(arrows.open);
                lemma_token_references_rendered_concat(seq![base], seq![arrows.open]);
                lemma_type_info_pairs_rendered_by_tokens(generics);
                lemma_token_references_rendered_concat(
                    seq![base] + seq![arrows.open],
                    type_info_pairs_tokens(generics),
                );
                lemma_token_references_rendered_one(arrows.close);
                lemma_token_references_rendered_concat(
                    seq![base] + seq![arrows.open] + type_info_pairs_tokens(generics),
                    seq![arrows.close],
                );
            },
            TypeInfoView::Intersection { left, ampersand, right } => {
                left.lemma_rendered_by_tokens();
                lemma_token_references_rendered_one(ampersand);
                lemma_token_references_rendered_concat(left.tokens(), seq![ampersand]);
                right.lemma_rendered_by_tokens();
                lemma_token_references_rendered_concat(
                    left.tokens() + seq![ampersand],
                    right.tokens(),
                );
            },
            TypeInfoView::Module { module, punctuation, type_info } => {
                lemma_token_references_rendered_one(module);
                lemma_token_references_rendered_one(punctuation);
                lemma_token_references_rendered_concat(seq![module], seq![punctuation]);
                type_info.lemma_rendered_by_tokens();
                lemma_token_references_rendered_concat(
                    seq![module] + seq![punctuation],
                    type_info.tokens(),
                );
            },
            TypeInfoView::Optional { base, question_mark } => {
                base.lemma_rendered_by_tokens();
                lemma_token_references_rendered_one(question_mark);
                lemma_token_references_rendered_concat(base.tokens(), seq![question_mark]);
            },
            TypeInfoView::Table { braces, fields } => {
                lemma_token_references_rendered_one(braces.open);
                lemma_type_field_pairs_rendered_by_tokens(fields);
                lemma_token_references_rendered_concat(
                    seq![braces.open],
                    type_field_pairs_tokens(fields),
                );
                lemma_token_references_rendered_one(braces.close);
                lemma_token_references_rendered_concat(
                    seq![braces.open] + type_field_pairs_tokens(fields),
                    seq![braces.close],
                );
            },
            TypeInfoView::Typeof { typeof_token, parentheses, inner } => {
                lemma_token_references_rendered_one(typeof_token);
                lemma_token_references_rendered_one(parentheses.open);
                lemma_token_references_rendered_concat(seq![typeof_token], seq![parentheses.open]);
                inner.lemma_rendered_by_tokens();
                lemma_token_references_rendered_concat(
                    seq![typeof_token] + seq![parentheses.open],
                    inner.tokens(),
                );
                lemma_token_references_rendered_one(parentheses.close);
                lemma_token_references_rendered_concat(
                    seq![typeof_token] + seq![parentheses.open] + inner.tokens(),
                    seq![parentheses.close],
                );
            },
            TypeInfoView::Tuple { parentheses, types } => {
                lemma_token_references_rendered_one(parentheses.open);
                lemma_type_info_pairs_rendered_by_tokens(types);
                lemma_token_references_rendered_concat(
                    seq![parentheses.open],
                    type_info_pairs_tokens(types),
                );
                lemma_token_references_rendered_one(parentheses.close);
                lemma_token_references_rendered_concat(
                    seq![parentheses.open] + type_info_pairs_tokens(types),
                    seq![parentheses.close],
                );
            },
            TypeInfoView::Union { left, pipe, right } => {
                left.lemma_rendered_by_tokens();
                lemma_token_references_rendered_one(pipe);
                lemma_token_references_rendered_concat(left.tokens(), seq![pipe]);
                right.lemma_rendered_by_tokens();
                lemma_token_references_rendered_concat(left.tokens() + seq![pipe], right.tokens());
            },
            TypeInfoView::Variadic { ellipse, type_info } => {
                lemma_token_references_rendered_one(ellipse);
                type_info.lemma_rendered_by_tokens();
                lemma_token_references_rendered_concat(seq![ellipse], type_info.tokens());
            },
        }
    }
}

impl IndexedTypeInfoView {
    /// The text of the node is the text of its tokens, in source order: the
    /// leading trivia, the text and the trailing trivia of each, with
    /// nothing between them. So a node whose tokens are a source text cut
    /// into tokens renders as that text.
    pub proof fn lemma_rendered_by_tokens(self)
        ensures
            self.rendered() == token_references_rendered(self.tokens()),
        decreases self,
    {
        match self {
            IndexedTypeInfoView::Basic(token) => {
                lemma_token_references_rendered_one(token);
            },
            IndexedTypeInfoView::Generic { base, arrows, generics } => {
                lemma_token_references_rendered_one(base);
                lemma_token_references_rendered_one(arrows.open);
                lemma_token_references_rendered_concat(seq![base], seq![arrows.open]);
                lemma_type_info_pairs_rendered_by_tokens(generics);
                lemma_token_references_rendered_concat(
                    seq![base] + seq![arrows.open],
                    type_info_pairs_tokens(generics),
                );
                lemma_token_references_rendered_one(arrows.close);
                lemma_token_references_rendered_concat(
                    seq![base] + seq![arrows.open] + type_info_pairs_tokens(generics),
                    seq![arrows.close],
                );
            },
        }
    }
}

impl TypeFieldView {
    /// The text of the node is the text of its tokens, in source order: the
    /// leading trivia, the text and the trailing trivia of each, with
    /// nothing between them. So a node whose tokens are a source text cut
    /// into tokens renders as that text.
    pub proof fn lemma_rendered_by_tokens(self)
        ensures
            self.rendered() == token_references_rendered(self.tokens()),
        decreases self,
    {
        self.key.lemma_rendered_by_tokens();
        lemma_token_references_rendered_one(self.colon);
        lemma_token_references_rendered_concat(self.key.tokens(), seq![self.colon]);
        self.value.lemma_rendered_by_tokens();
        lemma_token_references_rendered_concat(
            self.key.tokens() + seq![self.colon],
            self.value.tokens(),
        );
    }
}

impl TypeFieldKeyView {
    /// The text of the node is the text of its tokens, in source order: the
    /// leading trivia, the text and the trailing trivia of each, with
    /// nothing between them. So a node whose tokens are a source text cut
    /// into tokens renders as that text.
    pub proof fn lemma_rendered_by_tokens(self)
        ensures
            self.rendered() == token_references_rendered(self.tokens()),
        decreases self,
    {
        match self {
            TypeFieldKeyView::Name(token) => {
                lemma_token_references_rendered_one(token);
            },
            TypeFieldKeyView::IndexSignature { brackets, inner } => {
                lemma_token_references_rendered_one(brackets.open);
                inner.lemma_rendered_by_tokens();
                lemma_token_references_rendered_concat(seq![brackets.open], inner.tokens());
                lemma_token_references_rendered_one(brackets.close);
                lemma_token_references_rendered_concat(
                    seq![brackets.open] + inner.tokens(),
                    seq![brackets.close],
                );
            },
        }
    }
}

impl TypeAssertionView {
    /// The text of the node is the text of its tokens, in source order: the
    /// leading trivia, the text and the trailing trivia of each, with
    /// nothing between them. So a node whose tokens are a source text cut
    /// into tokens renders as that text.
    pub proof fn lemma_rendered_by_tokens(self)
        ensures
            self.rendered() == token_references_rendered(self.tokens()),
    {
        lemma_token_references_rendered_one(self.assertion_op);
        self.cast_to.lemma_rendered_by_tokens();
        lemma_token_references_rendered_concat(seq![self.assertion_op], self.cast_to.tokens());
    }
}

impl TypeDeclarationView {
    /// The text of the node is the text of its tokens, in source order: the
    /// leading trivia, the text and the trailing trivia of each, with
    /// nothing between them. So a node whose tokens are a source text cut
    /// into tokens renders as that text.
    pub proof fn lemma_rendered_by_tokens(self)
        ensures
            self.rendered() == token_references_rendered(self.tokens()),
    {
        lemma_token_references_rendered_one(self.type_token);
        lemma_token_references_rendered_one(self.base);
        lemma_token_references_rendered_concat(seq![self.type_token], seq![self.base]);
        match self.generics {
            Some(inner) => inner.lemma_rendered_by_tokens(),
            None => {},
        }
        lemma_token_references_rendered_concat(
            seq![self.type_token] + seq![self.base],
            optional_tokens(self.generics),
        );
        lemma_token_references_rendered_one(self.equal_token);
        lemma_token_references_rendered_concat(
            seq![self.type_token] + seq![self.base] + optional_tokens(self.generics),
            seq![self.equal_token],
        );
        self.declare_as.lemma_rendered_by_tokens();
        lemma_token_references_rendered_concat(
            seq![self.type_token]
                + seq![self.base]
                + optional_tokens(self.generics)
                + seq![self.equal_token],
            self.declare_as.tokens(),
        );
    }
}

impl GenericDeclarationView {
    /// The text of the node is the text of its tokens, in source order: the
    /// leading trivia, the text and the trailing trivia of each, with
    /// nothing between them. So a node whose tokens are a source text cut
    /// into tokens renders as that text.
    pub proof fn lemma_rendered_by_tokens(self)
        ensures
            self.rendered() == token_references_rendered(self.tokens()),
    {
        lemma_token_references_rendered_one(self.arrows.open);
        lemma_token_pairs_rendered_by_tokens(self.generics);
        lemma_token_references_rendered_concat(
            seq![self.arrows.open],
            token_pairs_tokens(self.generics),
        );
        lemma_token_references_rendered_one(self.arrows.close);
        lemma_token_references_rendered_concat(
            seq![self.arrows.open] + token_pairs_tokens(self.generics),
            seq![self.arrows.close],
        );
    }
}

impl TypeSpecifierView {
    /// The text of the node is the text of its tokens, in source order: the
    /// leading trivia, the text and the trailing trivia of each, with
    /// nothing between them. So a node whose tokens are a source text cut
    /// into tokens renders as that text.
    pub proof fn lemma_rendered_by_tokens(self)
        ensures
            self.rendered() == token_references_rendered(self.tokens()),
    {
        lemma_token_references_rendered_one(self.punctuation);
        self.type_info.lemma_rendered_by_tokens();
        lemma_token_references_rendered_concat(seq![self.punctuation], self.type_info.tokens());
    }
}

impl ExportedTypeDeclarationView {
    /// The text of the node is the text of its tokens, in source order: the
    /// leading trivia, the text and the trailing trivia of each, with
    /// nothing between them. So a node whose tokens are a source text cut
    /// into tokens renders as that text.
    pub proof fn lemma_rendered_by_tokens(self)
        ensures
            self.rendered() == token_references_rendered(self.tokens()),
    {
        lemma_token_references_rendered_one(self.export_token);
        self.type_declaration.lemma_rendered_by_tokens();
        lemma_token_references_rendered_concat(
            seq![self.export_token],
            self.type_declaration.tokens(),
        );
    }
}

impl CompoundOpView {
    /// The text of the node is the text of its tokens, in source order: the
    /// leading trivia, the text and the trailing trivia of each, with
    /// nothing between them. So a node whose tokens are a source text cut
    /// into tokens renders as that text.
    pub proof fn lemma_rendered_by_tokens(self)
        ensures
            self.rendered() == token_references_rendered(self.tokens()),
    {
        match self {
            CompoundOpView::PlusEqual(token) => {
                lemma_token_references_rendered_one(token);
            },
            CompoundOpView::MinusEqual(token) => {
                lemma_token_references_rendered_one(token);
            },
            CompoundOpView::StarEqual(token) => {
                lemma_token_references_rendered_one(token);
            },
            CompoundOpView::SlashEqual(token) => {
                lemma_token_references_rendered_one(token);
            },
            CompoundOpView::PercentEqual(token) => {
                lemma_token_references_rendered_one(token);
            },
            CompoundOpView::CaretEqual(token) => {
                lemma_token_references_rendered_one(token);
            },
            CompoundOpView::TwoDotsEqual(token) => {
                lemma_token_references_rendered_one(token);
            },
        }
    }
}

impl CompoundAssignmentView {
    /// The text of the node is the text of its tokens, in source order: the
    /// leading trivia, the text and the trailing trivia of each, with
    /// nothing between them. So a node whose tokens are a source text cut
    /// into tokens renders as that text.
    pub proof fn lemma_rendered_by_tokens(self)
        ensures
            self.rendered() == token_references_rendered(self.tokens()),
    {
        self.lhs.lemma_rendered_by_tokens();
        self.compound_operator.lemma_rendered_by_tokens();
        lemma_token_references_rendered_concat(self.lhs.tokens(), self.compound_operator.tokens());
        self.rhs.lemma_rendered_by_tokens();
        lemma_token_references_rendered_concat(
            self.lhs.tokens() + self.compound_operator.tokens(),
            self.rhs.tokens(),
        );
    }
}

/// The text of a punctuated list of [`TypeInfo`] is the text of its tokens, in
/// source order.
pub proof fn lemma_type_info_pairs_rendered_by_tokens(pairs: Seq<PairView<TypeInfoView>>)
    ensures
        type_info_pairs_rendered(pairs) == token_references_rendered(type_info_pairs_tokens(pairs)),
    decreases pairs,
{
    if pairs.len() > 0 {
        lemma_type_info_pairs_rendered_by_tokens(pairs.drop_last());
        match pairs.last() {
            PairView::End(value) => {
                value.lemma_rendered_by_tokens();
                lemma_token_references_rendered_concat(
                    type_info_pairs_tokens(pairs.drop_last()),
                    value.tokens(),
                );
            },
            PairView::Punctuated(value, punctuation) => {
                value.lemma_rendered_by_tokens();
                lemma_token_references_rendered_one(punctuation);
                lemma_token_references_rendered_concat(value.tokens(), seq![punctuation]);
                lemma_token_references_rendered_concat(
                    type_info_pairs_tokens(pairs.drop_last()),
                    value.tokens() + seq![punctuation],
                );
            },
        }
    }
}

/// The text of a punctuated list of [`TypeField`] is the text of its tokens, in
/// source order.
pub proof fn lemma_type_field_pairs_rendered_by_tokens(pairs: Seq<PairView<TypeFieldView>>)
    ensures
        type_field_pairs_rendered(pairs) ==
            token_references_rendered(type_field_pairs_tokens(pairs)),
    decreases pairs,
{
    if pairs.len() > 0 {
        lemma_type_field_pairs_rendered_by_tokens(pairs.drop_last());
        match pairs.last() {
            PairView::End(value) => {
                value.lemma_rendered_by_tokens();
                lemma_token_references_rendered_concat(
                    type_field_pairs_tokens(pairs.drop_last()),
                    value.tokens(),
                );
            },
            PairView::Punctuated(value, punctuation) => {
                value.lemma_rendered_by_tokens();
                lemma_token_references_rendered_one(punctuation);
                lemma_token_references_rendered_concat(value.tokens(), seq![punctuation]);
                lemma_token_references_rendered_concat(
                    type_field_pairs_tokens(pairs.drop_last()),
                    value.tokens() + seq![punctuation],
                );
            },
        }
    }
}

/// The text of a punctuated list of [`TokenReference`] is the text of its tokens, in
/// source order.
pub proof fn lemma_token_pairs_rendered_by_tokens(pairs: Seq<PairView<TokenReferenceView>>)
    ensures
        token_pairs_rendered(pairs) == token_references_rendered(token_pairs_tokens(pairs)),
    decreases pairs,
{
    if pairs.len() > 0 {
        lemma_token_pairs_rendered_by_tokens(pairs.drop_last());
        match pairs.last() {
            PairView::End(value) => {
                lemma_token_references_rendered_one(value);
                lemma_token_references_rendered_concat(
                    token_pairs_tokens(pairs.drop_last()),
                    seq![value],
                );
            },
            PairView::Punctuated(value, punctuation) => {
                lemma_token_references_rendered_one(value);
                lemma_token_references_rendered_one(punctuation);
                lemma_token_references_rendered_concat(seq![value], seq![punctuation]);
                lemma_token_references_rendered_concat(
                    token_pairs_tokens(pairs.drop_last()),
                    seq![value] + seq![punctuation],
                );
            },
        }
    }
}

/// After the dot of a module stands a name, with or without parameters, and
/// nothing else: whatever type a `Module` holds is one of those two.
pub proof fn lemma_module_holds_indexed_type(node: TypeInfoView)
    requires
        node is Module,
    ensures
        *node->Module_type_info is Basic || *node->Module_type_info is Generic,
{
}

/// Every type has a token, and it begins where its first token begins and
/// ends where its last token ends.
pub proof fn lemma_type_info_span(node: TypeInfoView)
    ensures
        node.tokens().len() > 0,
        node.start_position() == Some(node.tokens().first().start_position()),
        node.end_position() == Some(node.tokens().last().end_position()),
    decreases node,
{
    let tokens = node.tokens();
    match node {
        TypeInfoView::Array { braces, type_info } => {
            assert(tokens.first() == braces.open);
            assert(tokens.last() == braces.close);
        },
        TypeInfoView::Basic(token) => {
            assert(tokens.first() == token);
            assert(tokens.last() == token);
        },
        TypeInfoView::Callback { parentheses, arguments, arrow, return_type } => {
            lemma_type_info_span(*return_type);
            assert(tokens.first() == parentheses.open);
            assert(tokens.last() == return_type.tokens().last());
        },
        TypeInfoView::Generic { base, arrows, generics } => {
            assert(tokens.first() == base);
            assert(tokens.last() == arrows.close);
        },
        TypeInfoView::Intersection { left, ampersand, right } => {
            lemma_type_info_span(*left);
            lemma_type_info_span(*right);
            assert(tokens.first() == left.tokens().first());
            assert(tokens.last() == right.tokens().last());
        },
        TypeInfoView::Module { module, punctuation, type_info } => {
            lemma_indexed_type_info_span(*type_info);
            assert(tokens.first() == module);
            assert(tokens.last() == type_info.tokens().last());
        },
        TypeInfoView::Optional { base, question_mark } => {
            lemma_type_info_span(*base);
            assert(tokens.first() == base.tokens().first());
            assert(tokens.last() == question_mark);
        },
        TypeInfoView::Table { braces, fields } => {
            assert(tokens.first() == braces.open);
            assert(tokens.last() == braces.close);
        },
        TypeInfoView::Typeof { typeof_token, parentheses, inner } => {
            assert(tokens.first() == typeof_token);
            assert(tokens.last() == parentheses.close);
        },
        TypeInfoView::Tuple { parentheses, types } => {
            assert(tokens.first() == parentheses.open);
            assert(tokens.last() == parentheses.close);
        },
        TypeInfoView::Union { left, pipe, right } => {
            lemma_type_info_span(*left);
            lemma_type_info_span(*right);
            assert(tokens.first() == left.tokens().first());
            assert(tokens.last() == right.tokens().last());
        },
        TypeInfoView::Variadic { ellipse, type_info } => {
            lemma_type_info_span(*type_info);
            assert(tokens.first() == ellipse);
            assert(tokens.last() == type_info.tokens().last());
        },
    }
}

/// Every type that may stand after the dot of a module has a token, and it
/// begins where its first token begins and ends where its last token ends.
pub proof fn lemma_indexed_type_info_span(node: IndexedTypeInfoView)
    ensures
        node.tokens().len() > 0,
        node.start_position() == Some(node.tokens().first().start_position()),
        node.end_position() == Some(node.tokens().last().end_position()),
{
    let tokens = node.tokens();
    match node {
        IndexedTypeInfoView::Basic(token) => {
            assert(tokens.first() == token);
            assert(tokens.last() == token);
        },
        IndexedTypeInfoView::Generic { base, arrows, generics } => {
            assert(tokens.first() == base);
            assert(tokens.last() == arrows.close);
        },
    }
}

} // verus!
