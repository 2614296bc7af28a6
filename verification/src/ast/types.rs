//! Type annotations, the declarations built from them, and the compound
//! assignment statement.
//!
//! The shape of each node is fixed by its type: what cannot be written in the
//! source has no value here. A node is changed by making a new one with one
//! part put in place of the old (`with_…`); nothing changes a node in place.

use crate::ast::punctuated::{Pair, PairView, Punctuated};
use crate::ast::span::{ContainedSpan, ContainedSpanView};
use crate::ast::{Expression, ExpressionView, Var, VarView};
use crate::tokenizer::{
    lemma_symbol_parses, parse_symbol, Symbol, TokenReference, TokenReferenceView,
    TokenizerErrorView,
};
use vstd::prelude::*;

verus! {

/// Any type, such as `string`, `boolean?` or `number | boolean`.
#[derive(Debug)]
#[allow(inconsistent_fields)]
#[non_exhaustive]
pub enum TypeInfo<'a> {
    /// The type of an array, written with its element type in braces: `{ number }`.
    Array {
        /// The braces around the element type.
        braces: ContainedSpan<'a>,
        /// The type of the elements.
        type_info: Box<TypeInfo<'a>>,
    },
    /// A type that is a single name, such as `string` or `Foo`.
    Basic(TokenReference<'a>),
    /// The type of a function, such as `(string, number) -> boolean`.
    Callback {
        /// The parentheses around the arguments.
        parentheses: ContainedSpan<'a>,
        /// The types of the arguments: `string, number`.
        arguments: Punctuated<'a, TypeInfo<'a>>,
        /// The arrow between the arguments and the return type.
        arrow: TokenReference<'a>,
        /// The type that is returned: `boolean`.
        return_type: Box<TypeInfo<'a>>,
    },
    /// A type with parameters, such as `map<number, string>`.
    Generic {
        /// The name that takes the parameters: `map`.
        base: TokenReference<'a>,
        /// The angle brackets around the parameters.
        arrows: ContainedSpan<'a>,
        /// The parameters: `number, string`.
        generics: Punctuated<'a, TypeInfo<'a>>,
    },
    /// Both of two types: `string & number`.
    Intersection {
        /// The type on the left: `string`.
        left: Box<TypeInfo<'a>>,
        /// The `&` between the two.
        ampersand: TokenReference<'a>,
        /// The type on the right: `number`.
        right: Box<TypeInfo<'a>>,
    },
    /// A type that belongs to a module, such as `module.Foo`.
    Module {
        /// The name of the module: `module`.
        module: TokenReference<'a>,
        /// The `.` after the module's name.
        punctuation: TokenReference<'a>,
        /// The type within the module: `Foo`.
        type_info: Box<IndexedTypeInfo<'a>>,
    },
    /// A type that may be absent, such as `string?`.
    Optional {
        /// The type that may be absent: `string`.
        base: Box<TypeInfo<'a>>,
        /// The `?` after it.
        question_mark: TokenReference<'a>,
    },
    /// The type of a table, written field by field: `{ foo: number, bar: string }`.
    Table {
        /// The braces around the fields.
        braces: ContainedSpan<'a>,
        /// The fields: `foo: number, bar: string`.
        fields: Punctuated<'a, TypeField<'a>>,
    },
    /// The type of an expression: `typeof(foo)`.
    Typeof {
        /// The word `typeof`.
        typeof_token: TokenReference<'a>,
        /// The parentheses around the expression.
        parentheses: ContainedSpan<'a>,
        /// The expression whose type is meant: `foo`.
        inner: Box<Expression<'a>>,
    },
    /// Several types in a row: `(string, number)`.
    Tuple {
        /// The parentheses around the types.
        parentheses: ContainedSpan<'a>,
        /// The types, in order: `string, number`.
        types: Punctuated<'a, TypeInfo<'a>>,
    },
    /// One of two types: `string | number`.
    Union {
        /// The type on the left: `string`.
        left: Box<TypeInfo<'a>>,
        /// The `|` between the two.
        pipe: TokenReference<'a>,
        /// The type on the right: `number`.
        right: Box<TypeInfo<'a>>,
    },
    /// A type that repeats any number of times: `...number`.
    Variadic {
        /// The `...` before the type.
        ellipse: TokenReference<'a>,
        /// The type that repeats: `number`.
        type_info: Box<TypeInfo<'a>>,
    },
}

/// What a [`TypeInfo`] holds, with its text as plain characters.
#[allow(inconsistent_fields)]
pub enum TypeInfoView {
    Array { braces: ContainedSpanView, type_info: Box<TypeInfoView> },
    Basic(TokenReferenceView),
    Callback {
        parentheses: ContainedSpanView,
        arguments: Seq<PairView<TypeInfoView>>,
        arrow: TokenReferenceView,
        return_type: Box<TypeInfoView>,
    },
    Generic {
        base: TokenReferenceView,
        arrows: ContainedSpanView,
        generics: Seq<PairView<TypeInfoView>>,
    },
    Intersection {
        left: Box<TypeInfoView>,
        ampersand: TokenReferenceView,
        right: Box<TypeInfoView>,
    },
    Module {
        module: TokenReferenceView,
        punctuation: TokenReferenceView,
        type_info: Box<IndexedTypeInfoView>,
    },
    Optional { base: Box<TypeInfoView>, question_mark: TokenReferenceView },
    Table { braces: ContainedSpanView, fields: Seq<PairView<TypeFieldView>> },
    Typeof {
        typeof_token: TokenReferenceView,
        parentheses: ContainedSpanView,
        inner: Box<ExpressionView>,
    },
    Tuple { parentheses: ContainedSpanView, types: Seq<PairView<TypeInfoView>> },
    Union { left: Box<TypeInfoView>, pipe: TokenReferenceView, right: Box<TypeInfoView> },
    Variadic { ellipse: TokenReferenceView, type_info: Box<TypeInfoView> },
}

/// A type that may stand after the dot of a module: a name, with or without
/// parameters. No other kind of type can be written there, so no other kind
/// has a variant here.
#[derive(Debug)]
#[non_exhaustive]
pub enum IndexedTypeInfo<'a> {
    /// A type that is a single name, such as `string` or `Foo`.
    Basic(TokenReference<'a>),
    /// A type with parameters, such as `map<number, string>`.
    Generic {
        /// The name that takes the parameters: `map`.
        base: TokenReference<'a>,
        /// The angle brackets around the parameters.
        arrows: ContainedSpan<'a>,
        /// The parameters: `number, string`.
        generics: Punctuated<'a, TypeInfo<'a>>,
    },
}

/// What a [`IndexedTypeInfo`] holds, with its text as plain characters.
pub enum IndexedTypeInfoView {
    Basic(TokenReferenceView),
    Generic {
        base: TokenReferenceView,
        arrows: ContainedSpanView,
        generics: Seq<PairView<TypeInfoView>>,
    },
}

/// A field of a table type: the `foo: number` in `{ foo: number }`.
#[derive(Debug)]
pub struct TypeField<'a> {
    pub(crate) key: TypeFieldKey<'a>,
    pub(crate) colon: TokenReference<'a>,
    pub(crate) value: TypeInfo<'a>,
}

/// What a [`TypeField`] holds, with its text as plain characters.
pub struct TypeFieldView {
    pub key: TypeFieldKeyView,
    pub colon: TokenReferenceView,
    pub value: TypeInfoView,
}

/// The key of a [`TypeField`]: a name, or the type of an index.
#[derive(Debug)]
#[non_exhaustive]
pub enum TypeFieldKey<'a> {
    /// A name, such as `foo`.
    Name(TokenReference<'a>),
    /// The type of an index, such as `[number]`.
    IndexSignature {
        /// The brackets around the type.
        brackets: ContainedSpan<'a>,
        /// The type of the index: the `number` in `[number]`.
        inner: TypeInfo<'a>,
    },
}

/// What a [`TypeFieldKey`] holds, with its text as plain characters.
pub enum TypeFieldKeyView {
    Name(TokenReferenceView),
    IndexSignature { brackets: ContainedSpanView, inner: TypeInfoView },
}

/// A cast written after an expression, such as `:: number`.
#[derive(Debug)]
pub struct TypeAssertion<'a> {
    pub(crate) assertion_op: TokenReference<'a>,
    pub(crate) cast_to: TypeInfo<'a>,
}

/// What a [`TypeAssertion`] holds, with its text as plain characters.
pub struct TypeAssertionView {
    pub assertion_op: TokenReferenceView,
    pub cast_to: TypeInfoView,
}

/// The declaration of a type, such as `type Meters = number`.
#[derive(Debug)]
pub struct TypeDeclaration<'a> {
    pub(crate) type_token: TokenReference<'a>,
    pub(crate) base: TokenReference<'a>,
    pub(crate) generics: Option<GenericDeclaration<'a>>,
    pub(crate) equal_token: TokenReference<'a>,
    pub(crate) declare_as: TypeInfo<'a>,
}

/// What a [`TypeDeclaration`] holds, with its text as plain characters.
pub struct TypeDeclarationView {
    pub type_token: TokenReferenceView,
    pub base: TokenReferenceView,
    pub generics: Option<GenericDeclarationView>,
    pub equal_token: TokenReferenceView,
    pub declare_as: TypeInfoView,
}

/// The parameters of a [`TypeDeclaration`]: the `<T>` of `type Foo<T> = T`.
#[derive(Debug)]
pub struct GenericDeclaration<'a> {
    pub(crate) arrows: ContainedSpan<'a>,
    pub(crate) generics: Punctuated<'a, TokenReference<'a>>,
}

/// What a [`GenericDeclaration`] holds, with its text as plain characters.
pub struct GenericDeclarationView {
    pub arrows: ContainedSpanView,
    pub generics: Seq<PairView<TokenReferenceView>>,
}

/// The type given to a variable: the `: number` in `local foo: number`.
#[derive(Debug)]
pub struct TypeSpecifier<'a> {
    pub(crate) punctuation: TokenReference<'a>,
    pub(crate) type_info: TypeInfo<'a>,
}

/// What a [`TypeSpecifier`] holds, with its text as plain characters.
pub struct TypeSpecifierView {
    pub punctuation: TokenReferenceView,
    pub type_info: TypeInfoView,
}

/// A type declaration that a module exports, such as
/// `export type Meters = number`.
#[derive(Debug)]
pub struct ExportedTypeDeclaration<'a> {
    pub(crate) export_token: TokenReference<'a>,
    pub(crate) type_declaration: TypeDeclaration<'a>,
}

/// What a [`ExportedTypeDeclaration`] holds, with its text as plain characters.
pub struct ExportedTypeDeclarationView {
    pub export_token: TokenReferenceView,
    pub type_declaration: TypeDeclarationView,
}

/// The operator of a compound assignment, such as the `+=` of `x += 1`.
#[derive(Debug)]
#[non_exhaustive]
pub enum CompoundOp<'a> {
    /// `+=`
    PlusEqual(TokenReference<'a>),
    /// `-=`
    MinusEqual(TokenReference<'a>),
    /// `*=`
    StarEqual(TokenReference<'a>),
    /// `/=`
    SlashEqual(TokenReference<'a>),
    /// `%=`
    PercentEqual(TokenReference<'a>),
    /// `^=`
    CaretEqual(TokenReference<'a>),
    /// `..=`
    TwoDotsEqual(TokenReference<'a>),
}

/// What a [`CompoundOp`] holds, with its text as plain characters.
pub enum CompoundOpView {
    PlusEqual(TokenReferenceView),
    MinusEqual(TokenReferenceView),
    StarEqual(TokenReferenceView),
    SlashEqual(TokenReferenceView),
    PercentEqual(TokenReferenceView),
    CaretEqual(TokenReferenceView),
    TwoDotsEqual(TokenReferenceView),
}

/// A compound assignment, such as `x += 1` or `x -= 1`.
#[derive(Debug)]
pub struct CompoundAssignment<'a> {
    pub(crate) lhs: Var<'a>,
    pub(crate) compound_operator: CompoundOp<'a>,
    pub(crate) rhs: Expression<'a>,
}

/// What a [`CompoundAssignment`] holds, with its text as plain characters.
pub struct CompoundAssignmentView {
    pub lhs: VarView,
    pub compound_operator: CompoundOpView,
    pub rhs: ExpressionView,
}

/// What a pair of a punctuated list of [`TypeInfo`] holds.
pub open spec fn type_info_pair_view<'a>(pair: Pair<'a, TypeInfo<'a>>) -> PairView<TypeInfoView>
    decreases pair,
{
    match pair {
        Pair::End(value) => PairView::End(value@),
        Pair::Punctuated(value, punctuation) => PairView::Punctuated(value@, punctuation@),
    }
}

/// What a punctuated list of [`TypeInfo`] holds: the views of its pairs, in
/// order.
pub open(crate) spec fn type_info_pairs_view<'a>(
    list: &Punctuated<'a,
    TypeInfo<'a>>,
) -> Seq<PairView<TypeInfoView>>
    decreases list,
{
    Seq::new(
        list.pairs@.len(),
        |i: int|
            if 0 <= i < list.pairs@.len() {
                type_info_pair_view(list.pairs@[i])
            } else {
                arbitrary()
            },
    )
}

/// What a pair of a punctuated list of [`TypeField`] holds.
pub open spec fn type_field_pair_view<'a>(pair: Pair<'a, TypeField<'a>>) -> PairView<TypeFieldView>
    decreases pair,
{
    match pair {
        Pair::End(value) => PairView::End(value@),
        Pair::Punctuated(value, punctuation) => PairView::Punctuated(value@, punctuation@),
    }
}

/// What a punctuated list of [`TypeField`] holds: the views of its pairs, in
/// order.
pub open(crate) spec fn type_field_pairs_view<'a>(
    list: &Punctuated<'a,
    TypeField<'a>>,
) -> Seq<PairView<TypeFieldView>>
    decreases list,
{
    Seq::new(
        list.pairs@.len(),
        |i: int|
            if 0 <= i < list.pairs@.len() {
                type_field_pair_view(list.pairs@[i])
            } else {
                arbitrary()
            },
    )
}

/// What a pair of a punctuated list of [`TokenReference`] holds.
pub open spec fn token_pair_view<'a>(
    pair: Pair<'a,
    TokenReference<'a>>,
) -> PairView<TokenReferenceView> {
    match pair {
        Pair::End(value) => PairView::End(value@),
        Pair::Punctuated(value, punctuation) => PairView::Punctuated(value@, punctuation@),
    }
}

/// What a punctuated list of [`TokenReference`] holds: the views of its pairs, in
/// order.
pub open(crate) spec fn token_pairs_view<'a>(
    list: &Punctuated<'a,
    TokenReference<'a>>,
) -> Seq<PairView<TokenReferenceView>> {
    Seq::new(
        list.pairs@.len(),
        |i: int|
            if 0 <= i < list.pairs@.len() {
                token_pair_view(list.pairs@[i])
            } else {
                arbitrary()
            },
    )
}

/// What a declaration of parameters that may be absent holds.
pub open spec fn generics_view<'a>(generics: Option<GenericDeclaration<'a>>) -> Option<
    GenericDeclarationView,
> {
    match generics {
        Some(inner) => Some(inner@),
        None => None,
    }
}

impl<'a> TypeInfo<'a> {
    /// What this node holds, with its text as plain characters.
    pub open spec fn view(&self) -> TypeInfoView
        decreases self,
    {
        match self {
            TypeInfo::Array { braces, type_info } => TypeInfoView::Array {
                braces: braces@,
                type_info: Box::new(type_info.view()),
            },
            TypeInfo::Basic(token) => TypeInfoView::Basic(token@),
            TypeInfo::Callback {
                parentheses,
                arguments,
                arrow,
                return_type,
            } => TypeInfoView::Callback {
                parentheses: parentheses@,
                arguments: type_info_pairs_view(arguments),
                arrow: arrow@,
                return_type: Box::new(return_type.view()),
            },
            TypeInfo::Generic { base, arrows, generics } => TypeInfoView::Generic {
                base: base@,
                arrows: arrows@,
                generics: type_info_pairs_view(generics),
            },
            TypeInfo::Intersection { left, ampersand, right } => TypeInfoView::Intersection {
                left: Box::new(left.view()),
                ampersand: ampersand@,
                right: Box::new(right.view()),
            },
            TypeInfo::Module { module, punctuation, type_info } => TypeInfoView::Module {
                module: module@,
                punctuation: punctuation@,
                type_info: Box::new(type_info.view()),
            },
            TypeInfo::Optional { base, question_mark } => TypeInfoView::Optional {
                base: Box::new(base.view()),
                question_mark: question_mark@,
            },
            TypeInfo::Table { braces, fields } => TypeInfoView::Table {
                braces: braces@,
                fields: type_field_pairs_view(fields),
            },
            TypeInfo::Typeof { typeof_token, parentheses, inner } => TypeInfoView::Typeof {
                typeof_token: typeof_token@,
                parentheses: parentheses@,
                inner: Box::new(inner.view()),
            },
            TypeInfo::Tuple { parentheses, types } => TypeInfoView::Tuple {
                parentheses: parentheses@,
                types: type_info_pairs_view(types),
            },
            TypeInfo::Union { left, pipe, right } => TypeInfoView::Union {
                left: Box::new(left.view()),
                pipe: pipe@,
                right: Box::new(right.view()),
            },
            TypeInfo::Variadic { ellipse, type_info } => TypeInfoView::Variadic {
                ellipse: ellipse@,
                type_info: Box::new(type_info.view()),
            },
        }
    }
}

impl<'a> IndexedTypeInfo<'a> {
    /// What this node holds, with its text as plain characters.
    pub open spec fn view(&self) -> IndexedTypeInfoView
        decreases self,
    {
        match self {
            IndexedTypeInfo::Basic(token) => IndexedTypeInfoView::Basic(token@),
            IndexedTypeInfo::Generic { base, arrows, generics } => IndexedTypeInfoView::Generic {
                base: base@,
                arrows: arrows@,
                generics: type_info_pairs_view(generics),
            },
        }
    }
}

impl<'a> TypeField<'a> {
    /// What this node holds, with its text as plain characters.
    pub open(crate) spec fn view(&self) -> TypeFieldView
        decreases self,
    {
        TypeFieldView {
            key: self.key@,
            colon: self.colon@,
            value: self.value@,
        }
    }
}

impl<'a> TypeFieldKey<'a> {
    /// What this node holds, with its text as plain characters.
    pub open spec fn view(&self) -> TypeFieldKeyView
        decreases self,
    {
        match self {
            TypeFieldKey::Name(token) => TypeFieldKeyView::Name(token@),
            TypeFieldKey::IndexSignature { brackets, inner } => TypeFieldKeyView::IndexSignature {
                brackets: brackets@,
                inner: inner@,
            },
        }
    }
}

impl<'a> TypeAssertion<'a> {
    /// What this node holds, with its text as plain characters.
    pub open(crate) spec fn view(&self) -> TypeAssertionView {
        TypeAssertionView {
            assertion_op: self.assertion_op@,
            cast_to: self.cast_to@,
        }
    }
}

impl<'a> TypeDeclaration<'a> {
    /// What this node holds, with its text as plain characters.
    pub open(crate) spec fn view(&self) -> TypeDeclarationView {
        TypeDeclarationView {
            type_token: self.type_token@,
            base: self.base@,
            generics: generics_view(self.generics),
            equal_token: self.equal_token@,
            declare_as: self.declare_as@,
        }
    }
}

impl<'a> GenericDeclaration<'a> {
    /// What this node holds, with its text as plain characters.
    pub open(crate) spec fn view(&self) -> GenericDeclarationView {
        GenericDeclarationView {
            arrows: self.arrows@,
            generics: token_pairs_view(&self.generics),
        }
    }
}

impl<'a> TypeSpecifier<'a> {
    /// What this node holds, with its text as plain characters.
    pub open(crate) spec fn view(&self) -> TypeSpecifierView {
        TypeSpecifierView {
            punctuation: self.punctuation@,
            type_info: self.type_info@,
        }
    }
}

impl<'a> ExportedTypeDeclaration<'a> {
    /// What this node holds, with its text as plain characters.
    pub open(crate) spec fn view(&self) -> ExportedTypeDeclarationView {
        ExportedTypeDeclarationView {
            export_token: self.export_token@,
            type_declaration: self.type_declaration@,
        }
    }
}

impl<'a> CompoundOp<'a> {
    /// What this node holds, with its text as plain characters.
    pub open spec fn view(&self) -> CompoundOpView {
        match self {
            CompoundOp::PlusEqual(token) => CompoundOpView::PlusEqual(token@),
            CompoundOp::MinusEqual(token) => CompoundOpView::MinusEqual(token@),
            CompoundOp::StarEqual(token) => CompoundOpView::StarEqual(token@),
            CompoundOp::SlashEqual(token) => CompoundOpView::SlashEqual(token@),
            CompoundOp::PercentEqual(token) => CompoundOpView::PercentEqual(token@),
            CompoundOp::CaretEqual(token) => CompoundOpView::CaretEqual(token@),
            CompoundOp::TwoDotsEqual(token) => CompoundOpView::TwoDotsEqual(token@),
        }
    }
}

impl<'a> CompoundAssignment<'a> {
    /// What this node holds, with its text as plain characters.
    pub open(crate) spec fn view(&self) -> CompoundAssignmentView {
        CompoundAssignmentView {
            lhs: self.lhs@,
            compound_operator: self.compound_operator@,
            rhs: self.rhs@,
        }
    }
}

/// Whether all pairs of a punctuated list but the last have punctuation.
pub open spec fn well_punctuated<V>(pairs: Seq<PairView<V>>) -> bool {
    forall|i: int| 0 <= i < pairs.len() - 1 ==> #[trigger] pairs[i] is Punctuated
}

/// Whether a punctuated list of [`TypeInfo`] is written as the grammar has it:
/// all pairs but the last have punctuation, and every item is well formed.
pub open spec fn type_info_pairs_well_formed(pairs: Seq<PairView<TypeInfoView>>) -> bool
    decreases pairs,
{
    &&& well_punctuated(pairs)
    &&& forall|i: int|
        0 <= i < pairs.len() ==> (match #[trigger] pairs[i] {
            PairView::End(value) => value.well_formed(),
            PairView::Punctuated(value, _) => value.well_formed(),
        })
}

/// Whether a punctuated list of [`TypeField`] is written as the grammar has it:
/// all pairs but the last have punctuation, and every item is well formed.
pub open spec fn type_field_pairs_well_formed(pairs: Seq<PairView<TypeFieldView>>) -> bool
    decreases pairs,
{
    &&& well_punctuated(pairs)
    &&& forall|i: int|
        0 <= i < pairs.len() ==> (match #[trigger] pairs[i] {
            PairView::End(value) => value.well_formed(),
            PairView::Punctuated(value, _) => value.well_formed(),
        })
}

/// Whether a punctuated list of [`TokenReference`] is written as the grammar has it:
/// all pairs but the last have punctuation.
pub open spec fn token_pairs_well_formed(pairs: Seq<PairView<TokenReferenceView>>) -> bool {
    well_punctuated(pairs)
}

/// Whether a declaration of parameters that may be absent is well formed where
/// it is there.
pub open spec fn generics_well_formed(generics: Option<GenericDeclarationView>) -> bool {
    match generics {
        Some(inner) => inner.well_formed(),
        None => true,
    }
}

impl TypeInfoView {
    /// Whether the node is written as the grammar has it: every pair of
    /// delimiters in it is the pair that belongs there, and every list in it
    /// has punctuation between its items.
    pub open spec fn well_formed(self) -> bool
        decreases self,
    {
        match self {
            TypeInfoView::Array {
                braces,
                type_info,
            } => braces.is_pair(Symbol::LeftBrace, Symbol::RightBrace)
                && type_info.well_formed(),
            TypeInfoView::Basic(_) => true,
            TypeInfoView::Callback {
                parentheses,
                arguments,
                arrow: _,
                return_type,
            } => parentheses.is_pair(Symbol::LeftParen, Symbol::RightParen)
                && type_info_pairs_well_formed(arguments)
                && return_type.well_formed(),
            TypeInfoView::Generic {
                base: _,
                arrows,
                generics,
            } => arrows.is_pair(Symbol::LessThan, Symbol::GreaterThan)
                && type_info_pairs_well_formed(generics),
            TypeInfoView::Intersection { left, ampersand: _, right } => left.well_formed()
                && right.well_formed(),
            TypeInfoView::Module { module: _, punctuation: _, type_info } =>
                type_info.well_formed(),
            TypeInfoView::Optional { base, question_mark: _ } => base.well_formed(),
            TypeInfoView::Table {
                braces,
                fields,
            } => braces.is_pair(Symbol::LeftBrace, Symbol::RightBrace)
                && type_field_pairs_well_formed(fields),
            TypeInfoView::Typeof { typeof_token: _, parentheses, inner: _ } =>
                parentheses.is_pair(Symbol::LeftParen, Symbol::RightParen),
            TypeInfoView::Tuple {
                parentheses,
                types,
            } => parentheses.is_pair(Symbol::LeftParen, Symbol::RightParen)
                && type_info_pairs_well_formed(types),
            TypeInfoView::Union { left, pipe: _, right } => left.well_formed()
                && right.well_formed(),
            TypeInfoView::Variadic { ellipse: _, type_info } => type_info.well_formed(),
        }
    }
}

impl IndexedTypeInfoView {
    /// Whether the node is written as the grammar has it: every pair of
    /// delimiters in it is the pair that belongs there, and every list in it
    /// has punctuation between its items.
    pub open spec fn well_formed(self) -> bool
        decreases self,
    {
        match self {
            IndexedTypeInfoView::Basic(_) => true,
            IndexedTypeInfoView::Generic {
                base: _,
                arrows,
                generics,
            } => arrows.is_pair(Symbol::LessThan, Symbol::GreaterThan)
                && type_info_pairs_well_formed(generics),
        }
    }
}

impl TypeFieldView {
    /// Whether the node is written as the grammar has it: every pair of
    /// delimiters in it is the pair that belongs there, and every list in it
    /// has punctuation between its items.
    pub open spec fn well_formed(self) -> bool
        decreases self,
    {
        self.key.well_formed() && self.value.well_formed()
    }
}

impl TypeFieldKeyView {
    /// Whether the node is written as the grammar has it: every pair of
    /// delimiters in it is the pair that belongs there, and every list in it
    /// has punctuation between its items.
    pub open spec fn well_formed(self) -> bool
        decreases self,
    {
        match self {
            TypeFieldKeyView::Name(_) => true,
            TypeFieldKeyView::IndexSignature {
                brackets,
                inner,
            } => brackets.is_pair(Symbol::LeftBracket, Symbol::RightBracket)
                && inner.well_formed(),
        }
    }
}

impl TypeAssertionView {
    /// Whether the node is written as the grammar has it: every pair of
    /// delimiters in it is the pair that belongs there, and every list in it
    /// has punctuation between its items.
    pub open spec fn well_formed(self) -> bool {
        self.cast_to.well_formed()
    }
}

impl TypeDeclarationView {
    /// Whether the node is written as the grammar has it: every pair of
    /// delimiters in it is the pair that belongs there, and every list in it
    /// has punctuation between its items.
    pub open spec fn well_formed(self) -> bool {
        generics_well_formed(self.generics) && self.declare_as.well_formed()
    }
}

impl GenericDeclarationView {
    /// Whether the node is written as the grammar has it: every pair of
    /// delimiters in it is the pair that belongs there, and every list in it
    /// has punctuation between its items.
    pub open spec fn well_formed(self) -> bool {
        self.arrows.is_pair(Symbol::LessThan, Symbol::GreaterThan)
            && token_pairs_well_formed(self.generics)
    }
}

impl TypeSpecifierView {
    /// Whether the node is written as the grammar has it: every pair of
    /// delimiters in it is the pair that belongs there, and every list in it
    /// has punctuation between its items.
    pub open spec fn well_formed(self) -> bool {
        self.type_info.well_formed()
    }
}

impl ExportedTypeDeclarationView {
    /// Whether the node is written as the grammar has it: every pair of
    /// delimiters in it is the pair that belongs there, and every list in it
    /// has punctuation between its items.
    pub open spec fn well_formed(self) -> bool {
        self.type_declaration.well_formed()
    }
}

/// `: ` is read as a colon followed by one space.
proof fn lemma_colon_parses()
    ensures
        parse_symbol(": "@) == Ok::<TokenReferenceView, TokenizerErrorView>(
            TokenReferenceView::synthesized(Seq::empty(), Symbol::Colon, " "@),
        ),
{
    reveal_strlit(": ");
    reveal_strlit(":");
    reveal_strlit(" ");
    lemma_symbol_parses(Seq::empty(), Symbol::Colon, " "@);
    assert(": "@ =~= Seq::<char>::empty() + Symbol::Colon.text() + " "@);
}

/// `::` is read as two colons with no whitespace around them.
proof fn lemma_two_colons_parses()
    ensures
        parse_symbol("::"@) == Ok::<TokenReferenceView, TokenizerErrorView>(
            TokenReferenceView::synthesized(Seq::empty(), Symbol::TwoColons, Seq::empty()),
        ),
{
    lemma_symbol_parses(Seq::empty(), Symbol::TwoColons, Seq::empty());
    assert("::"@ =~= Seq::<char>::empty() + Symbol::TwoColons.text() + Seq::<char>::empty());
}

/// ` = ` is read as an equal sign with one space on either side.
proof fn lemma_equal_parses()
    ensures
        parse_symbol(" = "@) == Ok::<TokenReferenceView, TokenizerErrorView>(
            TokenReferenceView::synthesized(" "@, Symbol::Equal, " "@),
        ),
{
    reveal_strlit(" = ");
    reveal_strlit("=");
    reveal_strlit(" ");
    lemma_symbol_parses(" "@, Symbol::Equal, " "@);
    assert(" = "@ =~= " "@ + Symbol::Equal.text() + " "@);
}

/// `<` and `>` are read as the two angle brackets, with no whitespace around
/// them.
proof fn lemma_angle_brackets_parse()
    ensures
        parse_symbol("<"@) == Ok::<TokenReferenceView, TokenizerErrorView>(
            TokenReferenceView::synthesized(Seq::empty(), Symbol::LessThan, Seq::empty()),
        ),
        parse_symbol(">"@) == Ok::<TokenReferenceView, TokenizerErrorView>(
            TokenReferenceView::synthesized(Seq::empty(), Symbol::GreaterThan, Seq::empty()),
        ),
{
    lemma_symbol_parses(Seq::empty(), Symbol::LessThan, Seq::empty());
    lemma_symbol_parses(Seq::empty(), Symbol::GreaterThan, Seq::empty());
    assert("<"@ =~= Seq::<char>::empty() + Symbol::LessThan.text() + Seq::<char>::empty());
    assert(">"@ =~= Seq::<char>::empty() + Symbol::GreaterThan.text() + Seq::<char>::empty());
}

impl<'a> TypeField<'a> {
    /// A field with the given key and type, and `: ` between them.
    pub fn new(key: TypeFieldKey<'a>, value: TypeInfo<'a>) -> (node: Self)
        ensures
            node@ == (TypeFieldView {
                key: key@,
                colon: TokenReferenceView::synthesized(Seq::empty(), Symbol::Colon, " "@),
                value: value@,
            }),
            key@.well_formed() && value@.well_formed() ==> node@.well_formed(),
    {
        proof {
            lemma_colon_parses();
        }
        Self { key, colon: TokenReference::symbol(": ").unwrap(), value }
    }

    /// The key of the field: the `foo` in `foo: number`.
    pub fn key(&self) -> (part: &TypeFieldKey<'a>)
        ensures
            part@ == self@.key,
    {
        &self.key
    }

    /// The colon between the key and the type.
    pub fn colon_token(&self) -> (part: &TokenReference<'a>)
        ensures
            part@ == self@.colon,
    {
        &self.colon
    }

    /// The type of the field: the `number` in `foo: number`.
    pub fn value(&self) -> (part: &TypeInfo<'a>)
        ensures
            part@ == self@.value,
    {
        &self.value
    }

    /// The same field under another key.
    pub fn with_key(self, key: TypeFieldKey<'a>) -> (node: Self)
        ensures
            node@ == (TypeFieldView { key: key@, ..self@ }),
            self@.well_formed() && key@.well_formed() ==> node@.well_formed(),
    {
        Self { key, ..self }
    }

    /// The same field with another `:` token.
    pub fn with_colon_token(self, colon_token: TokenReference<'a>) -> (node: Self)
        ensures
            node@ == (TypeFieldView { colon: colon_token@, ..self@ }),
            self@.well_formed() ==> node@.well_formed(),
    {
        Self { colon: colon_token, ..self }
    }

    /// The same field with another type.
    pub fn with_value(self, value: TypeInfo<'a>) -> (node: Self)
        ensures
            node@ == (TypeFieldView { value: value@, ..self@ }),
            self@.well_formed() && value@.well_formed() ==> node@.well_formed(),
    {
        Self { value, ..self }
    }
}

impl<'a> TypeAssertion<'a> {
    /// A cast to the given type, written after `::`.
    pub fn new(cast_to: TypeInfo<'a>) -> (node: Self)
        ensures
            node@ == (TypeAssertionView {
                assertion_op: TokenReferenceView::synthesized(
                    Seq::empty(),
                    Symbol::TwoColons,
                    Seq::empty(),
                ),
                cast_to: cast_to@,
            }),
            cast_to@.well_formed() ==> node@.well_formed(),
    {
        proof {
            lemma_two_colons_parses();
        }
        Self { assertion_op: TokenReference::symbol("::").unwrap(), cast_to }
    }

    /// The `::` token.
    pub fn assertion_op(&self) -> (part: &TokenReference<'a>)
        ensures
            part@ == self@.assertion_op,
    {
        &self.assertion_op
    }

    /// The type that the expression is cast to: the `number` in `:: number`.
    pub fn cast_to(&self) -> (part: &TypeInfo<'a>)
        ensures
            part@ == self@.cast_to,
    {
        &self.cast_to
    }

    /// The same cast with another `::` token.
    pub fn with_assertion_op(self, assertion_op: TokenReference<'a>) -> (node: Self)
        ensures
            node@ == (TypeAssertionView { assertion_op: assertion_op@, ..self@ }),
            self@.well_formed() ==> node@.well_formed(),
    {
        Self { assertion_op, ..self }
    }

    /// The same `::` token before another type.
    pub fn with_cast_to(self, cast_to: TypeInfo<'a>) -> (node: Self)
        ensures
            node@ == (TypeAssertionView { cast_to: cast_to@, ..self@ }),
            self@.well_formed() && cast_to@.well_formed() ==> node@.well_formed(),
    {
        Self { cast_to, ..self }
    }
}

impl<'a> TypeDeclaration<'a> {
    /// The declaration of `name` as `type_definition`, without parameters:
    /// the word `type` and a space, the name, ` = `, the definition.
    pub fn new(name: TokenReference<'a>, type_definition: TypeInfo<'a>) -> (node: Self)
        ensures
            node@ == (TypeDeclarationView {
                type_token: TokenReferenceView::word("type"@),
                base: name@,
                generics: None,
                equal_token: TokenReferenceView::synthesized(" "@, Symbol::Equal, " "@),
                declare_as: type_definition@,
            }),
            type_definition@.well_formed() ==> node@.well_formed(),
    {
        proof {
            lemma_equal_parses();
        }
        Self {
            type_token: TokenReference::word("type"),
            base: name,
            generics: None,
            equal_token: TokenReference::symbol(" = ").unwrap(),
            declare_as: type_definition,
        }
    }

    /// The `type` token.
    pub fn type_token(&self) -> (part: &TokenReference<'a>)
        ensures
            part@ == self@.type_token,
    {
        &self.type_token
    }

    /// The name of the type: the `Meters` in `type Meters = number`.
    pub fn name(&self) -> (part: &TokenReference<'a>)
        ensures
            part@ == self@.base,
    {
        &self.base
    }

    /// The parameters of the type, if it has any: the `<T>` in `type Foo<T> = T`.
    pub fn generics(&self) -> (part: Option<&GenericDeclaration<'a>>)
        ensures
            match part {
                Some(inner) => self@.generics == Some(inner@),
                None => self@.generics is None,
            },
    {
        self.generics.as_ref()
    }

    /// The `=` token between the name and the definition.
    pub fn equal_token(&self) -> (part: &TokenReference<'a>)
        ensures
            part@ == self@.equal_token,
    {
        &self.equal_token
    }

    /// What the type is declared as: the `number` in `type Meters = number`.
    pub fn type_definition(&self) -> (part: &TypeInfo<'a>)
        ensures
            part@ == self@.declare_as,
    {
        &self.declare_as
    }

    /// The same declaration with another `type` token.
    pub fn with_type_token(self, type_token: TokenReference<'a>) -> (node: Self)
        ensures
            node@ == (TypeDeclarationView { type_token: type_token@, ..self@ }),
            self@.well_formed() ==> node@.well_formed(),
    {
        Self { type_token, ..self }
    }

    /// The same declaration under another name.
    pub fn with_type_name(self, name: TokenReference<'a>) -> (node: Self)
        ensures
            node@ == (TypeDeclarationView { base: name@, ..self@ }),
            self@.well_formed() ==> node@.well_formed(),
    {
        Self { base: name, ..self }
    }

    /// The same declaration with other parameters, or with none.
    pub fn with_generics(self, generics: Option<GenericDeclaration<'a>>) -> (node: Self)
        ensures
            node@ == (TypeDeclarationView { generics: generics_view(generics), ..self@ }),
            self@.well_formed()
                && generics_well_formed(generics_view(generics)) ==> node@.well_formed(),
    {
        Self { generics, ..self }
    }

    /// The same declaration with another `=` token.
    pub fn with_equal_token(self, equal_token: TokenReference<'a>) -> (node: Self)
        ensures
            node@ == (TypeDeclarationView { equal_token: equal_token@, ..self@ }),
            self@.well_formed() ==> node@.well_formed(),
    {
        Self { equal_token, ..self }
    }

    /// The same name declared as another type.
    pub fn with_type_definition(self, type_definition: TypeInfo<'a>) -> (node: Self)
        ensures
            node@ == (TypeDeclarationView { declare_as: type_definition@, ..self@ }),
            self@.well_formed() && type_definition@.well_formed() ==> node@.well_formed(),
    {
        Self { declare_as: type_definition, ..self }
    }
}

impl<'a> GenericDeclaration<'a> {
    /// The declaration of no parameters: `<` and `>` with nothing between them.
    pub fn new() -> (node: Self)
        ensures
            node@ == (GenericDeclarationView {
                arrows: ContainedSpanView {
                    open: TokenReferenceView::synthesized(
                        Seq::empty(),
                        Symbol::LessThan,
                        Seq::empty(),
                    ),
                    close: TokenReferenceView::synthesized(
                        Seq::empty(),
                        Symbol::GreaterThan,
                        Seq::empty(),
                    ),
                },
                generics: Seq::empty(),
            }),
            node@.well_formed(),
    {
        proof {
            lemma_angle_brackets_parse();
        }
        let node = Self {
            arrows: ContainedSpan::new(
                TokenReference::symbol("<").unwrap(),
                TokenReference::symbol(">").unwrap(),
            ),
            generics: Punctuated::new(),
        };
        assert(token_pairs_view(&node.generics) =~= Seq::empty());
        node
    }

    /// The angle brackets around the names.
    pub fn arrows(&self) -> (part: &ContainedSpan<'a>)
        ensures
            part@ == self@.arrows,
    {
        &self.arrows
    }

    /// The names of the parameters: the `T, U` in `<T, U>`.
    pub fn generics(&self) -> (part: &Punctuated<'a, TokenReference<'a>>)
        ensures
            token_pairs_view(part) == self@.generics,
    {
        &self.generics
    }

    /// The same names between other angle brackets.
    pub fn with_arrows(self, arrows: ContainedSpan<'a>) -> (node: Self)
        ensures
            node@ == (GenericDeclarationView { arrows: arrows@, ..self@ }),
            self@.well_formed()
                && arrows@.is_pair(Symbol::LessThan, Symbol::GreaterThan) ==> node@.well_formed(),
    {
        Self { arrows, ..self }
    }

    /// Other names between the same angle brackets.
    pub fn with_generics(self, generics: Punctuated<'a, TokenReference<'a>>) -> (node: Self)
        ensures
            node@ == (GenericDeclarationView { generics: token_pairs_view(&generics), ..self@ }),
            self@.well_formed()
                && token_pairs_well_formed(token_pairs_view(&generics)) ==> node@.well_formed(),
    {
        Self { generics, ..self }
    }
}

impl<'a> TypeSpecifier<'a> {
    /// The given type, written after `: `.
    pub fn new(type_info: TypeInfo<'a>) -> (node: Self)
        ensures
            node@ == (TypeSpecifierView {
                punctuation: TokenReferenceView::synthesized(Seq::empty(), Symbol::Colon, " "@),
                type_info: type_info@,
            }),
            type_info@.well_formed() ==> node@.well_formed(),
    {
        proof {
            lemma_colon_parses();
        }
        Self { punctuation: TokenReference::symbol(": ").unwrap(), type_info }
    }

    /// The punctuation before the type: the `:` in `local foo: number`.
    pub fn punctuation(&self) -> (part: &TokenReference<'a>)
        ensures
            part@ == self@.punctuation,
    {
        &self.punctuation
    }

    /// The type that is given: the `number` in `local foo: number`.
    pub fn type_info(&self) -> (part: &TypeInfo<'a>)
        ensures
            part@ == self@.type_info,
    {
        &self.type_info
    }

    /// The same type after other punctuation.
    pub fn with_punctuation(self, punctuation: TokenReference<'a>) -> (node: Self)
        ensures
            node@ == (TypeSpecifierView { punctuation: punctuation@, ..self@ }),
            self@.well_formed() ==> node@.well_formed(),
    {
        Self { punctuation, ..self }
    }

    /// Another type after the same punctuation.
    pub fn with_type_info(self, type_info: TypeInfo<'a>) -> (node: Self)
        ensures
            node@ == (TypeSpecifierView { type_info: type_info@, ..self@ }),
            self@.well_formed() && type_info@.well_formed() ==> node@.well_formed(),
    {
        Self { type_info, ..self }
    }
}

impl<'a> ExportedTypeDeclaration<'a> {
    /// The given declaration, written after the word `export` and a space.
    pub fn new(type_declaration: TypeDeclaration<'a>) -> (node: Self)
        ensures
            node@ == (ExportedTypeDeclarationView {
                export_token: TokenReferenceView::word("export"@),
                type_declaration: type_declaration@,
            }),
            type_declaration@.well_formed() ==> node@.well_formed(),
    {
        Self { export_token: TokenReference::word("export"), type_declaration }
    }

    /// The `export` token.
    pub fn export_token(&self) -> (part: &TokenReference<'a>)
        ensures
            part@ == self@.export_token,
    {
        &self.export_token
    }

    /// The declaration that is exported: `type Meters = number`.
    pub fn type_declaration(&self) -> (part: &TypeDeclaration<'a>)
        ensures
            part@ == self@.type_declaration,
    {
        &self.type_declaration
    }

    /// The same declaration with another `export` token.
    pub fn with_export_token(self, export_token: TokenReference<'a>) -> (node: Self)
        ensures
            node@ == (ExportedTypeDeclarationView { export_token: export_token@, ..self@ }),
            self@.well_formed() ==> node@.well_formed(),
    {
        Self { export_token, ..self }
    }

    /// Another declaration after the same `export` token.
    pub fn with_type_declaration(self, type_declaration: TypeDeclaration<'a>) -> (node: Self)
        ensures
            node@ == (ExportedTypeDeclarationView { type_declaration: type_declaration@, ..self@ }),
            self@.well_formed() && type_declaration@.well_formed() ==> node@.well_formed(),
    {
        Self { type_declaration, ..self }
    }
}

impl<'a> CompoundAssignment<'a> {
    /// The assignment of `rhs` to `lhs` through `compound_operator`.
    pub fn new(lhs: Var<'a>, compound_operator: CompoundOp<'a>, rhs: Expression<'a>) -> (node:
        Self)
        ensures
            node@ == (CompoundAssignmentView {
                lhs: lhs@,
                compound_operator: compound_operator@,
                rhs: rhs@,
            }),
    {
        Self { lhs, compound_operator, rhs }
    }

    /// What is assigned to: the `x` of `x += 1`.
    pub fn lhs(&self) -> (part: &Var<'a>)
        ensures
            part@ == self@.lhs,
    {
        &self.lhs
    }

    /// The operator: the `+=` of `x += 1`.
    pub fn compound_operator(&self) -> (part: &CompoundOp<'a>)
        ensures
            part@ == self@.compound_operator,
    {
        &self.compound_operator
    }

    /// The value that is assigned: the `1` of `x += 1`.
    pub fn rhs(&self) -> (part: &Expression<'a>)
        ensures
            part@ == self@.rhs,
    {
        &self.rhs
    }

    /// The same assignment to another target.
    pub fn with_lhs(self, lhs: Var<'a>) -> (node: Self)
        ensures
            node@ == (CompoundAssignmentView { lhs: lhs@, ..self@ }),
    {
        Self { lhs, ..self }
    }

    /// The same assignment with another operator.
    pub fn with_compound_operator(self, compound_operator: CompoundOp<'a>) -> (node: Self)
        ensures
            node@ == (CompoundAssignmentView { compound_operator: compound_operator@, ..self@ }),
    {
        Self { compound_operator, ..self }
    }

    /// The same assignment of another value.
    pub fn with_rhs(self, rhs: Expression<'a>) -> (node: Self)
        ensures
            node@ == (CompoundAssignmentView { rhs: rhs@, ..self@ }),
    {
        Self { rhs, ..self }
    }
}

impl<'a> CompoundOp<'a> {
    /// The token that the operator was written with.
    pub fn token(&self) -> (token: &TokenReference<'a>)
        ensures
            token@ == self@.token(),
    {
        match self {
            CompoundOp::PlusEqual(token) => token,
            CompoundOp::MinusEqual(token) => token,
            CompoundOp::StarEqual(token) => token,
            CompoundOp::SlashEqual(token) => token,
            CompoundOp::PercentEqual(token) => token,
            CompoundOp::CaretEqual(token) => token,
            CompoundOp::TwoDotsEqual(token) => token,
        }
    }
}

impl CompoundOpView {
    /// The token that the operator was written with.
    pub open spec fn token(self) -> TokenReferenceView {
        match self {
            CompoundOpView::PlusEqual(token) => token,
            CompoundOpView::MinusEqual(token) => token,
            CompoundOpView::StarEqual(token) => token,
            CompoundOpView::SlashEqual(token) => token,
            CompoundOpView::PercentEqual(token) => token,
            CompoundOpView::CaretEqual(token) => token,
            CompoundOpView::TwoDotsEqual(token) => token,
        }
    }

    /// The symbol that stands for this operator.
    pub open spec fn symbol(self) -> Symbol {
        match self {
            CompoundOpView::PlusEqual(_) => Symbol::PlusEqual,
            CompoundOpView::MinusEqual(_) => Symbol::MinusEqual,
            CompoundOpView::StarEqual(_) => Symbol::StarEqual,
            CompoundOpView::SlashEqual(_) => Symbol::SlashEqual,
            CompoundOpView::PercentEqual(_) => Symbol::PercentEqual,
            CompoundOpView::CaretEqual(_) => Symbol::CaretEqual,
            CompoundOpView::TwoDotsEqual(_) => Symbol::TwoDotsEqual,
        }
    }
}

} // verus!
