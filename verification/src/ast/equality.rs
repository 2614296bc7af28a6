//! Structural equality: two nodes are equal when they are the same variant
//! and every part of one equals the same part of the other.
//!
//! Trivia counts. Two trees that differ in one space are different trees,
//! because they render differently. Who owns the text does not count: a tree
//! that borrows its text equals the copy of it that does not.

use crate::ast::punctuated::{Pair, Punctuated};
use crate::ast::types::{
    token_pair_view, token_pairs_view, type_field_pair_view, type_field_pairs_view,
    type_info_pair_view, type_info_pairs_view, CompoundAssignment, CompoundOp,
    ExportedTypeDeclaration, GenericDeclaration, IndexedTypeInfo, TypeAssertion, TypeDeclaration,
    TypeField, TypeFieldKey, TypeInfo, TypeSpecifier,
};
use crate::tokenizer::TokenReference;
use vstd::prelude::*;
use vstd::std_specs::cmp::PartialEqSpecImpl;

verus! {

/// Whether two punctuated lists of [`TypeInfo`] hold the same items and the
/// same punctuation, in the same order.
fn type_info_pairs_eq<'a>(
    a: &Punctuated<'a,
    TypeInfo<'a>>,
    b: &Punctuated<'a,
    TypeInfo<'a>>,
) -> (r: bool)
    ensures
        r == (type_info_pairs_view(a) == type_info_pairs_view(b)),
    decreases a,
{
    if a.pairs.len() != b.pairs.len() {
        assert(type_info_pairs_view(a).len() != type_info_pairs_view(b).len());
        return false;
    }
    let mut i: usize = 0;
    while i < a.pairs.len()
        invariant
            i <= a.pairs.len(),
            a.pairs.len() == b.pairs.len(),
            forall|j: int| 0 <= j < i ==> type_info_pair_view(a.pairs@[j]) ==
                type_info_pair_view(b.pairs@[j]),
        decreases a.pairs.len() - i,
    {
        let same = match (&a.pairs[i], &b.pairs[i]) {
            (Pair::End(x), Pair::End(y)) => x.equals(y),
            (Pair::Punctuated(x, p), Pair::Punctuated(y, q)) => x.equals(y) && p == q,
            _ => false,
        };
        if !same {
            assert(type_info_pairs_view(a)[i as int] != type_info_pairs_view(b)[i as int]);
            return false;
        }
        i = i + 1;
    }
    assert(type_info_pairs_view(a) =~= type_info_pairs_view(b));
    true
}

/// Whether two punctuated lists of [`TypeField`] hold the same items and the
/// same punctuation, in the same order.
fn type_field_pairs_eq<'a>(
    a: &Punctuated<'a,
    TypeField<'a>>,
    b: &Punctuated<'a,
    TypeField<'a>>,
) -> (r: bool)
    ensures
        r == (type_field_pairs_view(a) == type_field_pairs_view(b)),
    decreases a,
{
    if a.pairs.len() != b.pairs.len() {
        assert(type_field_pairs_view(a).len() != type_field_pairs_view(b).len());
        return false;
    }
    let mut i: usize = 0;
    while i < a.pairs.len()
        invariant
            i <= a.pairs.len(),
            a.pairs.len() == b.pairs.len(),
            forall|j: int| 0 <= j < i ==> type_field_pair_view(a.pairs@[j]) ==
                type_field_pair_view(b.pairs@[j]),
        decreases a.pairs.len() - i,
    {
        let same = match (&a.pairs[i], &b.pairs[i]) {
            (Pair::End(x), Pair::End(y)) => x.equals(y),
            (Pair::Punctuated(x, p), Pair::Punctuated(y, q)) => x.equals(y) && p == q,
            _ => false,
        };
        if !same {
            assert(type_field_pairs_view(a)[i as int] != type_field_pairs_view(b)[i as int]);
            return false;
        }
        i = i + 1;
    }
    assert(type_field_pairs_view(a) =~= type_field_pairs_view(b));
    true
}

/// Whether two punctuated lists of [`TokenReference`] hold the same items and the
/// same punctuation, in the same order.
fn token_pairs_eq<'a>(
    a: &Punctuated<'a,
    TokenReference<'a>>,
    b: &Punctuated<'a,
    TokenReference<'a>>,
) -> (r: bool)
    ensures
        r == (token_pairs_view(a) == token_pairs_view(b)),
{
    if a.pairs.len() != b.pairs.len() {
        assert(token_pairs_view(a).len() != token_pairs_view(b).len());
        return false;
    }
    let mut i: usize = 0;
    while i < a.pairs.len()
        invariant
            i <= a.pairs.len(),
            a.pairs.len() == b.pairs.len(),
            forall|j: int| 0 <= j < i ==> token_pair_view(a.pairs@[j]) ==
                token_pair_view(b.pairs@[j]),
        decreases a.pairs.len() - i,
    {
        let same = match (&a.pairs[i], &b.pairs[i]) {
            (Pair::End(x), Pair::End(y)) => x == y,
            (Pair::Punctuated(x, p), Pair::Punctuated(y, q)) => x == y && p == q,
            _ => false,
        };
        if !same {
            assert(token_pairs_view(a)[i as int] != token_pairs_view(b)[i as int]);
            return false;
        }
        i = i + 1;
    }
    assert(token_pairs_view(a) =~= token_pairs_view(b));
    true
}

/// Whether two declarations of parameters that may be absent are both absent
/// or both there and the same.
fn generics_eq<'a>(a: &Option<GenericDeclaration<'a>>, b: &Option<GenericDeclaration<'a>>) -> (r:
    bool)
    ensures
        r == (match (a, b) {
            (Some(x), Some(y)) => x@ == y@,
            (None, None) => true,
            _ => false,
        }),
{
    match (a, b) {
        (Some(x), Some(y)) => x == y,
        (None, None) => true,
        _ => false,
    }
}

impl<'a> TypeInfo<'a> {
    /// Whether the two are the same variant with the same parts, trivia
    /// included.
    pub fn equals(&self, other: &Self) -> (r: bool)
        ensures
            r == (self@ == other@),
        decreases self,
    {
        match (self, other) {
            (
                TypeInfo::Array { braces: braces_a, type_info: type_info_a },
                TypeInfo::Array { braces: braces_b, type_info: type_info_b },
            ) => {
                braces_a == braces_b && type_info_a.equals(type_info_b)
            },
            (
                TypeInfo::Basic(a),
                TypeInfo::Basic(b),
            ) => {
                a == b
            },
            (
                TypeInfo::Callback {
                    parentheses: parentheses_a,
                    arguments: arguments_a,
                    arrow: arrow_a,
                    return_type: return_type_a,
                },
                TypeInfo::Callback {
                    parentheses: parentheses_b,
                    arguments: arguments_b,
                    arrow: arrow_b,
                    return_type: return_type_b,
                },
            ) => {
                parentheses_a == parentheses_b
                    && type_info_pairs_eq(arguments_a, arguments_b)
                    && arrow_a == arrow_b
                    && return_type_a.equals(return_type_b)
            },
            (
                TypeInfo::Generic { base: base_a, arrows: arrows_a, generics: generics_a },
                TypeInfo::Generic { base: base_b, arrows: arrows_b, generics: generics_b },
            ) => {
                base_a == base_b
                    && arrows_a == arrows_b
                    && type_info_pairs_eq(generics_a, generics_b)
            },
            (
                TypeInfo::Intersection { left: left_a, ampersand: ampersand_a, right: right_a },
                TypeInfo::Intersection { left: left_b, ampersand: ampersand_b, right: right_b },
            ) => {
                left_a.equals(left_b) && ampersand_a == ampersand_b && right_a.equals(right_b)
            },
            (
                TypeInfo::Module {
                    module: module_a,
                    punctuation: punctuation_a,
                    type_info: type_info_a,
                },
                TypeInfo::Module {
                    module: module_b,
                    punctuation: punctuation_b,
                    type_info: type_info_b,
                },
            ) => {
                module_a == module_b
                    && punctuation_a == punctuation_b
                    && type_info_a.equals(type_info_b)
            },
            (
                TypeInfo::Optional { base: base_a, question_mark: question_mark_a },
                TypeInfo::Optional { base: base_b, question_mark: question_mark_b },
            ) => {
                base_a.equals(base_b) && question_mark_a == question_mark_b
            },
            (
                TypeInfo::Table { braces: braces_a, fields: fields_a },
                TypeInfo::Table { braces: braces_b, fields: fields_b },
            ) => {
                braces_a == braces_b && type_field_pairs_eq(fields_a, fields_b)
            },
            (
                TypeInfo::Typeof {
                    typeof_token: typeof_token_a,
                    parentheses: parentheses_a,
                    inner: inner_a,
                },
                TypeInfo::Typeof {
                    typeof_token: typeof_token_b,
                    parentheses: parentheses_b,
                    inner: inner_b,
                },
            ) => {
                typeof_token_a == typeof_token_b
                    && parentheses_a == parentheses_b
                    && **inner_a == **inner_b
            },
            (
                TypeInfo::Tuple { parentheses: parentheses_a, types: types_a },
                TypeInfo::Tuple { parentheses: parentheses_b, types: types_b },
            ) => {
                parentheses_a == parentheses_b && type_info_pairs_eq(types_a, types_b)
            },
            (
                TypeInfo::Union { left: left_a, pipe: pipe_a, right: right_a },
                TypeInfo::Union { left: left_b, pipe: pipe_b, right: right_b },
            ) => {
                left_a.equals(left_b) && pipe_a == pipe_b && right_a.equals(right_b)
            },
            (
                TypeInfo::Variadic { ellipse: ellipse_a, type_info: type_info_a },
                TypeInfo::Variadic { ellipse: ellipse_b, type_info: type_info_b },
            ) => {
                ellipse_a == ellipse_b && type_info_a.equals(type_info_b)
            },
            _ => false,
        }
    }
}

impl<'a> PartialEq for TypeInfo<'a> {
    /// Whether the two are the same variant with the same parts, trivia
    /// included.
    fn eq(&self, other: &Self) -> (r: bool) {
        self.equals(other)
    }
}

impl<'a> PartialEqSpecImpl for TypeInfo<'a> {
    open spec fn obeys_eq_spec() -> bool {
        true
    }

    open spec fn eq_spec(&self, other: &Self) -> bool {
        self@ == other@
    }
}

impl<'a> IndexedTypeInfo<'a> {
    /// Whether the two are the same variant with the same parts, trivia
    /// included.
    pub fn equals(&self, other: &Self) -> (r: bool)
        ensures
            r == (self@ == other@),
        decreases self,
    {
        match (self, other) {
            (
                IndexedTypeInfo::Basic(a),
                IndexedTypeInfo::Basic(b),
            ) => {
                a == b
            },
            (
                IndexedTypeInfo::Generic { base: base_a, arrows: arrows_a, generics: generics_a },
                IndexedTypeInfo::Generic { base: base_b, arrows: arrows_b, generics: generics_b },
            ) => {
                base_a == base_b
                    && arrows_a == arrows_b
                    && type_info_pairs_eq(generics_a, generics_b)
            },
            _ => false,
        }
    }
}

impl<'a> PartialEq for IndexedTypeInfo<'a> {
    /// Whether the two are the same variant with the same parts, trivia
    /// included.
    fn eq(&self, other: &Self) -> (r: bool) {
        self.equals(other)
    }
}

impl<'a> PartialEqSpecImpl for IndexedTypeInfo<'a> {
    open spec fn obeys_eq_spec() -> bool {
        true
    }

    open spec fn eq_spec(&self, other: &Self) -> bool {
        self@ == other@
    }
}

impl<'a> TypeField<'a> {
    /// Whether the two have the same parts, trivia included.
    pub fn equals(&self, other: &Self) -> (r: bool)
        ensures
            r == (self@ == other@),
        decreases self,
    {
        self.key.equals(&other.key) && self.colon == other.colon && self.value.equals(&other.value)
    }
}

impl<'a> PartialEq for TypeField<'a> {
    /// Whether the two have the same parts, trivia included.
    fn eq(&self, other: &Self) -> (r: bool) {
        self.equals(other)
    }
}

impl<'a> PartialEqSpecImpl for TypeField<'a> {
    open spec fn obeys_eq_spec() -> bool {
        true
    }

    open spec fn eq_spec(&self, other: &Self) -> bool {
        self@ == other@
    }
}

impl<'a> TypeFieldKey<'a> {
    /// Whether the two are the same variant with the same parts, trivia
    /// included.
    pub fn equals(&self, other: &Self) -> (r: bool)
        ensures
            r == (self@ == other@),
        decreases self,
    {
        match (self, other) {
            (
                TypeFieldKey::Name(a),
                TypeFieldKey::Name(b),
            ) => {
                a == b
            },
            (
                TypeFieldKey::IndexSignature { brackets: brackets_a, inner: inner_a },
                TypeFieldKey::IndexSignature { brackets: brackets_b, inner: inner_b },
            ) => {
                brackets_a == brackets_b && inner_a.equals(inner_b)
            },
            _ => false,
        }
    }
}

impl<'a> PartialEq for TypeFieldKey<'a> {
    /// Whether the two are the same variant with the same parts, trivia
    /// included.
    fn eq(&self, other: &Self) -> (r: bool) {
        self.equals(other)
    }
}

impl<'a> PartialEqSpecImpl for TypeFieldKey<'a> {
    open spec fn obeys_eq_spec() -> bool {
        true
    }

    open spec fn eq_spec(&self, other: &Self) -> bool {
        self@ == other@
    }
}

impl<'a> PartialEq for TypeAssertion<'a> {
    /// Whether the two have the same parts, trivia included.
    fn eq(&self, other: &Self) -> (r: bool) {
        self.assertion_op == other.assertion_op && self.cast_to.equals(&other.cast_to)
    }
}

impl<'a> PartialEqSpecImpl for TypeAssertion<'a> {
    open spec fn obeys_eq_spec() -> bool {
        true
    }

    open spec fn eq_spec(&self, other: &Self) -> bool {
        self@ == other@
    }
}

impl<'a> PartialEq for TypeDeclaration<'a> {
    /// Whether the two have the same parts, trivia included.
    fn eq(&self, other: &Self) -> (r: bool) {
        self.type_token == other.type_token
            && self.base == other.base
            && generics_eq(&self.generics, &other.generics)
            && self.equal_token == other.equal_token
            && self.declare_as.equals(&other.declare_as)
    }
}

impl<'a> PartialEqSpecImpl for TypeDeclaration<'a> {
    open spec fn obeys_eq_spec() -> bool {
        true
    }

    open spec fn eq_spec(&self, other: &Self) -> bool {
        self@ == other@
    }
}

impl<'a> PartialEq for GenericDeclaration<'a> {
    /// Whether the two have the same parts, trivia included.
    fn eq(&self, other: &Self) -> (r: bool) {
        self.arrows == other.arrows && token_pairs_eq(&self.generics, &other.generics)
    }
}

impl<'a> PartialEqSpecImpl for GenericDeclaration<'a> {
    open spec fn obeys_eq_spec() -> bool {
        true
    }

    open spec fn eq_spec(&self, other: &Self) -> bool {
        self@ == other@
    }
}

impl<'a> PartialEq for TypeSpecifier<'a> {
    /// Whether the two have the same parts, trivia included.
    fn eq(&self, other: &Self) -> (r: bool) {
        self.punctuation == other.punctuation && self.type_info.equals(&other.type_info)
    }
}

impl<'a> PartialEqSpecImpl for TypeSpecifier<'a> {
    open spec fn obeys_eq_spec() -> bool {
        true
    }

    open spec fn eq_spec(&self, other: &Self) -> bool {
        self@ == other@
    }
}

impl<'a> PartialEq for ExportedTypeDeclaration<'a> {
    /// Whether the two have the same parts, trivia included.
    fn eq(&self, other: &Self) -> (r: bool) {
        self.export_token == other.export_token && self.type_declaration == other.type_declaration
    }
}

impl<'a> PartialEqSpecImpl for ExportedTypeDeclaration<'a> {
    open spec fn obeys_eq_spec() -> bool {
        true
    }

    open spec fn eq_spec(&self, other: &Self) -> bool {
        self@ == other@
    }
}

impl<'a> PartialEq for CompoundOp<'a> {
    /// Whether the two are the same variant with the same parts, trivia
    /// included.
    fn eq(&self, other: &Self) -> (r: bool) {
        match (self, other) {
            (
                CompoundOp::PlusEqual(a),
                CompoundOp::PlusEqual(b),
            ) => {
                a == b
            },
            (
                CompoundOp::MinusEqual(a),
                CompoundOp::MinusEqual(b),
            ) => {
                a == b
            },
            (
                CompoundOp::StarEqual(a),
                CompoundOp::StarEqual(b),
            ) => {
                a == b
            },
            (
                CompoundOp::SlashEqual(a),
                CompoundOp::SlashEqual(b),
            ) => {
                a == b
            },
            (
                CompoundOp::PercentEqual(a),
                CompoundOp::PercentEqual(b),
            ) => {
                a == b
            },
            (
                CompoundOp::CaretEqual(a),
                CompoundOp::CaretEqual(b),
            ) => {
                a == b
            },
            (
                CompoundOp::TwoDotsEqual(a),
                CompoundOp::TwoDotsEqual(b),
            ) => {
                a == b
            },
            _ => false,
        }
    }
}

impl<'a> PartialEqSpecImpl for CompoundOp<'a> {
    open spec fn obeys_eq_spec() -> bool {
        true
    }

    open spec fn eq_spec(&self, other: &Self) -> bool {
        self@ == other@
    }
}

impl<'a> PartialEq for CompoundAssignment<'a> {
    /// Whether the two have the same parts, trivia included.
    fn eq(&self, other: &Self) -> (r: bool) {
        self.lhs == other.lhs
            && self.compound_operator == other.compound_operator
            && self.rhs == other.rhs
    }
}

impl<'a> PartialEqSpecImpl for CompoundAssignment<'a> {
    open spec fn obeys_eq_spec() -> bool {
        true
    }

    open spec fn eq_spec(&self, other: &Self) -> bool {
        self@ == other@
    }
}

} // verus!
