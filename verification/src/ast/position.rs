//! Spans: where a node begins and where it ends.
//!
//! Nothing is stored for this. A node begins where its first part begins and
//! ends where its last part ends, down to single tokens, which know their own
//! positions. A node made by replacing a part therefore reports the span of
//! its new parts at once. The trivia of a token is not part of its span.

use crate::ast::types::{
    CompoundAssignment, CompoundAssignmentView, CompoundOp, CompoundOpView,
    ExportedTypeDeclaration, ExportedTypeDeclarationView, GenericDeclaration,
    GenericDeclarationView, IndexedTypeInfo, IndexedTypeInfoView, TypeAssertion,
    TypeAssertionView, TypeDeclaration, TypeDeclarationView, TypeField, TypeFieldKey,
    TypeFieldKeyView, TypeFieldView, TypeInfo, TypeInfoView, TypeSpecifier, TypeSpecifierView,
};
use crate::ast::{Expression, ExpressionView, Var, VarView};
use crate::tokenizer::Position;
use vstd::prelude::*;

verus! {

impl ExpressionView {
    /// Where the first token of the expression begins, if it has a token.
    pub open spec fn start_position(self) -> Option<Position> {
        if self.tokens.len() > 0 {
            Some(self.tokens.first().start_position())
        } else {
            None
        }
    }

    /// Where the last token of the expression ends, if it has a token.
    pub open spec fn end_position(self) -> Option<Position> {
        if self.tokens.len() > 0 {
            Some(self.tokens.last().end_position())
        } else {
            None
        }
    }
}

impl<'a> Expression<'a> {
    /// Where the first token of the expression begins, if it has a token.
    pub fn start_position(&self) -> (position: Option<Position>)
        ensures
            position == self@.start_position(),
    {
        if self.tokens.len() > 0 {
            Some(self.tokens[0].start_position())
        } else {
            None
        }
    }

    /// Where the last token of the expression ends, if it has a token.
    pub fn end_position(&self) -> (position: Option<Position>)
        ensures
            position == self@.end_position(),
    {
        if self.tokens.len() > 0 {
            Some(self.tokens[self.tokens.len() - 1].end_position())
        } else {
            None
        }
    }

    /// Where the expression begins and ends, if it has a token.
    pub fn range(&self) -> (range: Option<(Position, Position)>)
        ensures
            range == span_of(self@.start_position(), self@.end_position()),
    {
        match (self.start_position(), self.end_position()) {
            (Some(start), Some(end)) => Some((start, end)),
            _ => None,
        }
    }
}

impl VarView {
    /// Where the first token of the target begins, if it has a token.
    pub open spec fn start_position(self) -> Option<Position> {
        if self.tokens.len() > 0 {
            Some(self.tokens.first().start_position())
        } else {
            None
        }
    }

    /// Where the last token of the target ends, if it has a token.
    pub open spec fn end_position(self) -> Option<Position> {
        if self.tokens.len() > 0 {
            Some(self.tokens.last().end_position())
        } else {
            None
        }
    }
}

impl<'a> Var<'a> {
    /// Where the first token of the target begins, if it has a token.
    pub fn start_position(&self) -> (position: Option<Position>)
        ensures
            position == self@.start_position(),
    {
        if self.tokens.len() > 0 {
            Some(self.tokens[0].start_position())
        } else {
            None
        }
    }

    /// Where the last token of the target ends, if it has a token.
    pub fn end_position(&self) -> (position: Option<Position>)
        ensures
            position == self@.end_position(),
    {
        if self.tokens.len() > 0 {
            Some(self.tokens[self.tokens.len() - 1].end_position())
        } else {
            None
        }
    }

    /// Where the target begins and ends, if it has a token.
    pub fn range(&self) -> (range: Option<(Position, Position)>)
        ensures
            range == span_of(self@.start_position(), self@.end_position()),
    {
        match (self.start_position(), self.end_position()) {
            (Some(start), Some(end)) => Some((start, end)),
            _ => None,
        }
    }
}

/// The span from `start` to `end`, if both are there.
pub open spec fn span_of(start: Option<Position>, end: Option<Position>) -> Option<
    (Position, Position),
> {
    match (start, end) {
        (Some(start), Some(end)) => Some((start, end)),
        _ => None,
    }
}

impl TypeInfoView {
    /// Where the node begins: where its first part begins.
    pub open spec fn start_position(self) -> Option<Position>
        decreases self,
    {
        match self {
            TypeInfoView::Array { braces, .. } => Some(braces.open.start_position()),
            TypeInfoView::Basic(token) => Some(token.start_position()),
            TypeInfoView::Callback { parentheses, .. } => Some(parentheses.open.start_position()),
            TypeInfoView::Generic { base, .. } => Some(base.start_position()),
            TypeInfoView::Intersection { left, .. } => left.start_position(),
            TypeInfoView::Module { module, .. } => Some(module.start_position()),
            TypeInfoView::Optional { base, .. } => base.start_position(),
            TypeInfoView::Table { braces, .. } => Some(braces.open.start_position()),
            TypeInfoView::Typeof { typeof_token, .. } => Some(typeof_token.start_position()),
            TypeInfoView::Tuple { parentheses, .. } => Some(parentheses.open.start_position()),
            TypeInfoView::Union { left, .. } => left.start_position(),
            TypeInfoView::Variadic { ellipse, .. } => Some(ellipse.start_position()),
        }
    }

    /// Where the node ends: where its last part ends.
    pub open spec fn end_position(self) -> Option<Position>
        decreases self,
    {
        match self {
            TypeInfoView::Array { braces, .. } => Some(braces.close.end_position()),
            TypeInfoView::Basic(token) => Some(token.end_position()),
            TypeInfoView::Callback { return_type, .. } => return_type.end_position(),
            TypeInfoView::Generic { arrows, .. } => Some(arrows.close.end_position()),
            TypeInfoView::Intersection { right, .. } => right.end_position(),
            TypeInfoView::Module { type_info, .. } => type_info.end_position(),
            TypeInfoView::Optional { question_mark, .. } => Some(question_mark.end_position()),
            TypeInfoView::Table { braces, .. } => Some(braces.close.end_position()),
            TypeInfoView::Typeof { parentheses, .. } => Some(parentheses.close.end_position()),
            TypeInfoView::Tuple { parentheses, .. } => Some(parentheses.close.end_position()),
            TypeInfoView::Union { right, .. } => right.end_position(),
            TypeInfoView::Variadic { type_info, .. } => type_info.end_position(),
        }
    }
}

impl<'a> TypeInfo<'a> {
    /// Where the node begins: where its first part begins.
    pub fn start_position(&self) -> (position: Option<Position>)
        ensures
            position == self@.start_position(),
        decreases self,
    {
        match self {
            TypeInfo::Array { braces, .. } => Some(braces.tokens().0.start_position()),
            TypeInfo::Basic(token) => Some(token.start_position()),
            TypeInfo::Callback { parentheses, .. } => Some(parentheses.tokens().0.start_position()),
            TypeInfo::Generic { base, .. } => Some(base.start_position()),
            TypeInfo::Intersection { left, .. } => left.start_position(),
            TypeInfo::Module { module, .. } => Some(module.start_position()),
            TypeInfo::Optional { base, .. } => base.start_position(),
            TypeInfo::Table { braces, .. } => Some(braces.tokens().0.start_position()),
            TypeInfo::Typeof { typeof_token, .. } => Some(typeof_token.start_position()),
            TypeInfo::Tuple { parentheses, .. } => Some(parentheses.tokens().0.start_position()),
            TypeInfo::Union { left, .. } => left.start_position(),
            TypeInfo::Variadic { ellipse, .. } => Some(ellipse.start_position()),
        }
    }

    /// Where the node ends: where its last part ends.
    pub fn end_position(&self) -> (position: Option<Position>)
        ensures
            position == self@.end_position(),
        decreases self,
    {
        match self {
            TypeInfo::Array { braces, .. } => Some(braces.tokens().1.end_position()),
            TypeInfo::Basic(token) => Some(token.end_position()),
            TypeInfo::Callback { return_type, .. } => return_type.end_position(),
            TypeInfo::Generic { arrows, .. } => Some(arrows.tokens().1.end_position()),
            TypeInfo::Intersection { right, .. } => right.end_position(),
            TypeInfo::Module { type_info, .. } => type_info.end_position(),
            TypeInfo::Optional { question_mark, .. } => Some(question_mark.end_position()),
            TypeInfo::Table { braces, .. } => Some(braces.tokens().1.end_position()),
            TypeInfo::Typeof { parentheses, .. } => Some(parentheses.tokens().1.end_position()),
            TypeInfo::Tuple { parentheses, .. } => Some(parentheses.tokens().1.end_position()),
            TypeInfo::Union { right, .. } => right.end_position(),
            TypeInfo::Variadic { type_info, .. } => type_info.end_position(),
        }
    }

    /// Where the node begins and ends, if it does both.
    pub fn range(&self) -> (range: Option<(Position, Position)>)
        ensures
            range == span_of(self@.start_position(), self@.end_position()),
    {
        match (self.start_position(), self.end_position()) {
            (Some(start), Some(end)) => Some((start, end)),
            _ => None,
        }
    }
}

impl IndexedTypeInfoView {
    /// Where the node begins: where its first part begins.
    pub open spec fn start_position(self) -> Option<Position>
        decreases self,
    {
        match self {
            IndexedTypeInfoView::Basic(token) => Some(token.start_position()),
            IndexedTypeInfoView::Generic { base, .. } => Some(base.start_position()),
        }
    }

    /// Where the node ends: where its last part ends.
    pub open spec fn end_position(self) -> Option<Position>
        decreases self,
    {
        match self {
            IndexedTypeInfoView::Basic(token) => Some(token.end_position()),
            IndexedTypeInfoView::Generic { arrows, .. } => Some(arrows.close.end_position()),
        }
    }
}

impl<'a> IndexedTypeInfo<'a> {
    /// Where the node begins: where its first part begins.
    pub fn start_position(&self) -> (position: Option<Position>)
        ensures
            position == self@.start_position(),
        decreases self,
    {
        match self {
            IndexedTypeInfo::Basic(token) => Some(token.start_position()),
            IndexedTypeInfo::Generic { base, .. } => Some(base.start_position()),
        }
    }

    /// Where the node ends: where its last part ends.
    pub fn end_position(&self) -> (position: Option<Position>)
        ensures
            position == self@.end_position(),
        decreases self,
    {
        match self {
            IndexedTypeInfo::Basic(token) => Some(token.end_position()),
            IndexedTypeInfo::Generic { arrows, .. } => Some(arrows.tokens().1.end_position()),
        }
    }

    /// Where the node begins and ends, if it does both.
    pub fn range(&self) -> (range: Option<(Position, Position)>)
        ensures
            range == span_of(self@.start_position(), self@.end_position()),
    {
        match (self.start_position(), self.end_position()) {
            (Some(start), Some(end)) => Some((start, end)),
            _ => None,
        }
    }
}

impl TypeFieldView {
    /// Where the node begins: where its first part begins.
    pub open spec fn start_position(self) -> Option<Position>
        decreases self,
    {
        self.key.start_position()
    }

    /// Where the node ends: where its last part ends.
    pub open spec fn end_position(self) -> Option<Position>
        decreases self,
    {
        self.value.end_position()
    }
}

impl<'a> TypeField<'a> {
    /// Where the node begins: where its first part begins.
    pub fn start_position(&self) -> (position: Option<Position>)
        ensures
            position == self@.start_position(),
        decreases self,
    {
        self.key.start_position()
    }

    /// Where the node ends: where its last part ends.
    pub fn end_position(&self) -> (position: Option<Position>)
        ensures
            position == self@.end_position(),
        decreases self,
    {
        self.value.end_position()
    }

    /// Where the node begins and ends, if it does both.
    pub fn range(&self) -> (range: Option<(Position, Position)>)
        ensures
            range == span_of(self@.start_position(), self@.end_position()),
    {
        match (self.start_position(), self.end_position()) {
            (Some(start), Some(end)) => Some((start, end)),
            _ => None,
        }
    }
}

impl TypeFieldKeyView {
    /// Where the node begins: where its first part begins.
    pub open spec fn start_position(self) -> Option<Position>
        decreases self,
    {
        match self {
            TypeFieldKeyView::Name(token) => Some(token.start_position()),
            TypeFieldKeyView::IndexSignature { brackets, .. } =>
                Some(brackets.open.start_position()),
        }
    }

    /// Where the node ends: where its last part ends.
    pub open spec fn end_position(self) -> Option<Position>
        decreases self,
    {
        match self {
            TypeFieldKeyView::Name(token) => Some(token.end_position()),
            TypeFieldKeyView::IndexSignature { brackets, .. } =>
                Some(brackets.close.end_position()),
        }
    }
}

impl<'a> TypeFieldKey<'a> {
    /// Where the node begins: where its first part begins.
    pub fn start_position(&self) -> (position: Option<Position>)
        ensures
            position == self@.start_position(),
        decreases self,
    {
        match self {
            TypeFieldKey::Name(token) => Some(token.start_position()),
            TypeFieldKey::IndexSignature { brackets, .. } =>
                Some(brackets.tokens().0.start_position()),
        }
    }

    /// Where the node ends: where its last part ends.
    pub fn end_position(&self) -> (position: Option<Position>)
        ensures
            position == self@.end_position(),
        decreases self,
    {
        match self {
            TypeFieldKey::Name(token) => Some(token.end_position()),
            TypeFieldKey::IndexSignature { brackets, .. } =>
                Some(brackets.tokens().1.end_position()),
        }
    }

    /// Where the node begins and ends, if it does both.
    pub fn range(&self) -> (range: Option<(Position, Position)>)
        ensures
            range == span_of(self@.start_position(), self@.end_position()),
    {
        match (self.start_position(), self.end_position()) {
            (Some(start), Some(end)) => Some((start, end)),
            _ => None,
        }
    }
}

impl TypeAssertionView {
    /// Where the node begins: where its first part begins.
    pub open spec fn start_position(self) -> Option<Position> {
        Some(self.assertion_op.start_position())
    }

    /// Where the node ends: where its last part ends.
    pub open spec fn end_position(self) -> Option<Position> {
        self.cast_to.end_position()
    }
}

impl<'a> TypeAssertion<'a> {
    /// Where the node begins: where its first part begins.
    pub fn start_position(&self) -> (position: Option<Position>)
        ensures
            position == self@.start_position(),
    {
        Some(self.assertion_op.start_position())
    }

    /// Where the node ends: where its last part ends.
    pub fn end_position(&self) -> (position: Option<Position>)
        ensures
            position == self@.end_position(),
    {
        self.cast_to.end_position()
    }

    /// Where the node begins and ends, if it does both.
    pub fn range(&self) -> (range: Option<(Position, Position)>)
        ensures
            range == span_of(self@.start_position(), self@.end_position()),
    {
        match (self.start_position(), self.end_position()) {
            (Some(start), Some(end)) => Some((start, end)),
            _ => None,
        }
    }
}

impl TypeDeclarationView {
    /// Where the node begins: where its first part begins.
    pub open spec fn start_position(self) -> Option<Position> {
        Some(self.type_token.start_position())
    }

    /// Where the node ends: where its last part ends.
    pub open spec fn end_position(self) -> Option<Position> {
        self.declare_as.end_position()
    }
}

impl<'a> TypeDeclaration<'a> {
    /// Where the node begins: where its first part begins.
    pub fn start_position(&self) -> (position: Option<Position>)
        ensures
            position == self@.start_position(),
    {
        Some(self.type_token.start_position())
    }

    /// Where the node ends: where its last part ends.
    pub fn end_position(&self) -> (position: Option<Position>)
        ensures
            position == self@.end_position(),
    {
        self.declare_as.end_position()
    }

    /// Where the node begins and ends, if it does both.
    pub fn range(&self) -> (range: Option<(Position, Position)>)
        ensures
            range == span_of(self@.start_position(), self@.end_position()),
    {
        match (self.start_position(), self.end_position()) {
            (Some(start), Some(end)) => Some((start, end)),
            _ => None,
        }
    }
}

impl GenericDeclarationView {
    /// Where the node begins: where its first part begins.
    pub open spec fn start_position(self) -> Option<Position> {
        Some(self.arrows.open.start_position())
    }

    /// Where the node ends: where its last part ends.
    pub open spec fn end_position(self) -> Option<Position> {
        Some(self.arrows.close.end_position())
    }
}

impl<'a> GenericDeclaration<'a> {
    /// Where the node begins: where its first part begins.
    pub fn start_position(&self) -> (position: Option<Position>)
        ensures
            position == self@.start_position(),
    {
        Some(self.arrows.tokens().0.start_position())
    }

    /// Where the node ends: where its last part ends.
    pub fn end_position(&self) -> (position: Option<Position>)
        ensures
            position == self@.end_position(),
    {
        Some(self.arrows.tokens().1.end_position())
    }

    /// Where the node begins and ends, if it does both.
    pub fn range(&self) -> (range: Option<(Position, Position)>)
        ensures
            range == span_of(self@.start_position(), self@.end_position()),
    {
        match (self.start_position(), self.end_position()) {
            (Some(start), Some(end)) => Some((start, end)),
            _ => None,
        }
    }
}

impl TypeSpecifierView {
    /// Where the node begins: where its first part begins.
    pub open spec fn start_position(self) -> Option<Position> {
        Some(self.punctuation.start_position())
    }

    /// Where the node ends: where its last part ends.
    pub open spec fn end_position(self) -> Option<Position> {
        self.type_info.end_position()
    }
}

impl<'a> TypeSpecifier<'a> {
    /// Where the node begins: where its first part begins.
    pub fn start_position(&self) -> (position: Option<Position>)
        ensures
            position == self@.start_position(),
    {
        Some(self.punctuation.start_position())
    }

    /// Where the node ends: where its last part ends.
    pub fn end_position(&self) -> (position: Option<Position>)
        ensures
            position == self@.end_position(),
    {
        self.type_info.end_position()
    }

    /// Where the node begins and ends, if it does both.
    pub fn range(&self) -> (range: Option<(Position, Position)>)
        ensures
            range == span_of(self@.start_position(), self@.end_position()),
    {
        match (self.start_position(), self.end_position()) {
            (Some(start), Some(end)) => Some((start, end)),
            _ => None,
        }
    }
}

impl ExportedTypeDeclarationView {
    /// Where the node begins: where its first part begins.
    pub open spec fn start_position(self) -> Option<Position> {
        Some(self.export_token.start_position())
    }

    /// Where the node ends: where its last part ends.
    pub open spec fn end_position(self) -> Option<Position> {
        self.type_declaration.end_position()
    }
}

impl<'a> ExportedTypeDeclaration<'a> {
    /// Where the node begins: where its first part begins.
    pub fn start_position(&self) -> (position: Option<Position>)
        ensures
            position == self@.start_position(),
    {
        Some(self.export_token.start_position())
    }

    /// Where the node ends: where its last part ends.
    pub fn end_position(&self) -> (position: Option<Position>)
        ensures
            position == self@.end_position(),
    {
        self.type_declaration.end_position()
    }

    /// Where the node begins and ends, if it does both.
    pub fn range(&self) -> (range: Option<(Position, Position)>)
        ensures
            range == span_of(self@.start_position(), self@.end_position()),
    {
        match (self.start_position(), self.end_position()) {
            (Some(start), Some(end)) => Some((start, end)),
            _ => None,
        }
    }
}

impl CompoundOpView {
    /// Where the node begins: where its first part begins.
    pub open spec fn start_position(self) -> Option<Position> {
        match self {
            CompoundOpView::PlusEqual(token) => Some(token.start_position()),
            CompoundOpView::MinusEqual(token) => Some(token.start_position()),
            CompoundOpView::StarEqual(token) => Some(token.start_position()),
            CompoundOpView::SlashEqual(token) => Some(token.start_position()),
            CompoundOpView::PercentEqual(token) => Some(token.start_position()),
            CompoundOpView::CaretEqual(token) => Some(token.start_position()),
            CompoundOpView::TwoDotsEqual(token) => Some(token.start_position()),
        }
    }

    /// Where the node ends: where its last part ends.
    pub open spec fn end_position(self) -> Option<Position> {
        match self {
            CompoundOpView::PlusEqual(token) => Some(token.end_position()),
            CompoundOpView::MinusEqual(token) => Some(token.end_position()),
            CompoundOpView::StarEqual(token) => Some(token.end_position()),
            CompoundOpView::SlashEqual(token) => Some(token.end_position()),
            CompoundOpView::PercentEqual(token) => Some(token.end_position()),
            CompoundOpView::CaretEqual(token) => Some(token.end_position()),
            CompoundOpView::TwoDotsEqual(token) => Some(token.end_position()),
        }
    }
}

impl<'a> CompoundOp<'a> {
    /// Where the node begins: where its first part begins.
    pub fn start_position(&self) -> (position: Option<Position>)
        ensures
            position == self@.start_position(),
    {
        match self {
            CompoundOp::PlusEqual(token) => Some(token.start_position()),
            CompoundOp::MinusEqual(token) => Some(token.start_position()),
            CompoundOp::StarEqual(token) => Some(token.start_position()),
            CompoundOp::SlashEqual(token) => Some(token.start_position()),
            CompoundOp::PercentEqual(token) => Some(token.start_position()),
            CompoundOp::CaretEqual(token) => Some(token.start_position()),
            CompoundOp::TwoDotsEqual(token) => Some(token.start_position()),
        }
    }

    /// Where the node ends: where its last part ends.
    pub fn end_position(&self) -> (position: Option<Position>)
        ensures
            position == self@.end_position(),
    {
        match self {
            CompoundOp::PlusEqual(token) => Some(token.end_position()),
            CompoundOp::MinusEqual(token) => Some(token.end_position()),
            CompoundOp::StarEqual(token) => Some(token.end_position()),
            CompoundOp::SlashEqual(token) => Some(token.end_position()),
            CompoundOp::PercentEqual(token) => Some(token.end_position()),
            CompoundOp::CaretEqual(token) => Some(token.end_position()),
            CompoundOp::TwoDotsEqual(token) => Some(token.end_position()),
        }
    }

    /// Where the node begins and ends, if it does both.
    pub fn range(&self) -> (range: Option<(Position, Position)>)
        ensures
            range == span_of(self@.start_position(), self@.end_position()),
    {
        match (self.start_position(), self.end_position()) {
            (Some(start), Some(end)) => Some((start, end)),
            _ => None,
        }
    }
}

impl CompoundAssignmentView {
    /// Where the node begins: where its first part begins.
    pub open spec fn start_position(self) -> Option<Position> {
        self.lhs.start_position()
    }

    /// Where the node ends: where its last part ends.
    pub open spec fn end_position(self) -> Option<Position> {
        self.rhs.end_position()
    }
}

impl<'a> CompoundAssignment<'a> {
    /// Where the node begins: where its first part begins.
    pub fn start_position(&self) -> (position: Option<Position>)
        ensures
            position == self@.start_position(),
    {
        self.lhs.start_position()
    }

    /// Where the node ends: where its last part ends.
    pub fn end_position(&self) -> (position: Option<Position>)
        ensures
            position == self@.end_position(),
    {
        self.rhs.end_position()
    }

    /// Where the node begins and ends, if it does both.
    pub fn range(&self) -> (range: Option<(Position, Position)>)
        ensures
            range == span_of(self@.start_position(), self@.end_position()),
    {
        match (self.start_position(), self.end_position()) {
            (Some(start), Some(end)) => Some((start, end)),
            _ => None,
        }
    }
}

} // verus!
