use full_moon::ast::punctuated::{Pair, Punctuated};
use full_moon::ast::span::ContainedSpan;
use full_moon::ast::types::{
    CompoundAssignment, CompoundOp, GenericDeclaration, TypeField, TypeFieldKey, TypeInfo,
};
use full_moon::ast::{Expression, Var};
use full_moon::tokenizer::{Token, TokenReference, TokenType};
use std::borrow::Cow;

fn name(text: &str) -> TokenReference<'_> {
    TokenReference::new(
        Vec::new(),
        Token::new(TokenType::Identifier { identifier: Cow::Borrowed(text) }),
        Vec::new(),
    )
}

fn name_then_space(text: &str) -> TokenReference<'_> {
    TokenReference::new(
        Vec::new(),
        Token::new(TokenType::Identifier { identifier: Cow::Borrowed(text) }),
        vec![Token::new(TokenType::spaces(1))],
    )
}

fn number(text: &str) -> TokenReference<'_> {
    TokenReference::new(
        Vec::new(),
        Token::new(TokenType::Number { text: Cow::Borrowed(text) }),
        Vec::new(),
    )
}

fn symbol(text: &str) -> TokenReference<'static> {
    TokenReference::symbol(text).unwrap()
}

#[test]
fn table_type_renders_as_written() {
    let mut fields = Punctuated::new();
    fields.push(Pair::Punctuated(
        TypeField::new(TypeFieldKey::Name(name("foo")), TypeInfo::Basic(name("number"))),
        symbol(", "),
    ));
    fields.push(Pair::End(TypeField::new(
        TypeFieldKey::Name(name("bar")),
        TypeInfo::Basic(name_then_space("string")),
    )));
    assert_eq!(fields.len(), 2);
    let table = TypeInfo::Table { braces: ContainedSpan::new(symbol("{ "), symbol("}")), fields };
    assert_eq!(table.render(), "{ foo: number, bar: string }");
    match &table {
        TypeInfo::Table { fields, .. } => {
            let first = fields.get(0).unwrap().value();
            assert_eq!(first.key().render(), "foo");
            assert_eq!(first.value().render(), "number");
            let second = fields.get(1).unwrap().value();
            assert_eq!(second.key().render(), "bar");
            assert_eq!(second.value().render(), "string ");
        },
        _ => panic!("not a table"),
    }
}

#[test]
fn callback_type_renders_as_written() {
    let mut arguments = Punctuated::new();
    arguments.push(Pair::Punctuated(TypeInfo::Basic(name("string")), symbol(", ")));
    arguments.push(Pair::End(TypeInfo::Basic(name("number"))));
    let callback = TypeInfo::Callback {
        parentheses: ContainedSpan::new(symbol("("), symbol(") ")),
        arguments,
        arrow: symbol("-> "),
        return_type: Box::new(TypeInfo::Basic(name("boolean"))),
    };
    assert_eq!(callback.render(), "(string, number) -> boolean");
    match &callback {
        TypeInfo::Callback { arguments, return_type, .. } => {
            assert_eq!(arguments.len(), 2);
            assert_eq!(arguments.get(0).unwrap().value().render(), "string");
            assert_eq!(arguments.get(1).unwrap().value().render(), "number");
            assert_eq!(return_type.render(), "boolean");
        },
        _ => panic!("not a callback"),
    }
}

#[test]
fn compound_assignment_renders_as_written() {
    let assignment = CompoundAssignment::new(
        Var::new(vec![name_then_space("x")]),
        CompoundOp::PlusEqual(symbol("+= ")),
        Expression::new(vec![number("1")]),
    );
    assert_eq!(assignment.render(), "x += 1");
    assert_eq!(assignment.lhs().render(), "x ");
    assert!(matches!(assignment.compound_operator(), CompoundOp::PlusEqual(_)));
    assert_eq!(assignment.rhs().render(), "1");
}

fn union_of(left: &'static str, pipe: &str, right: &'static str) -> TypeInfo<'static> {
    TypeInfo::Union {
        left: Box::new(TypeInfo::Basic(name(left))),
        pipe: symbol(pipe),
        right: Box::new(TypeInfo::Basic(name(right))),
    }
}

#[test]
fn union_type_keeps_its_spacing() {
    let spaced = union_of("string", " | ", "number");
    assert_eq!(spaced.render(), "string | number");
    match &spaced {
        TypeInfo::Union { left, pipe, right } => {
            assert_eq!(left.render(), "string");
            assert_eq!(pipe.render(), " | ");
            assert_eq!(right.render(), "number");
        },
        _ => panic!("not a union"),
    }
    let tight = union_of("string", "|", "number");
    assert_eq!(tight.render(), "string|number");
    assert!(spaced != tight);
    assert!(spaced == union_of("string", " | ", "number"));
}

#[test]
fn generic_declaration_with_two_names() {
    let mut names = Punctuated::new();
    names.push(Pair::Punctuated(name("T"), symbol(", ")));
    names.push(Pair::End(name("U")));
    let declaration = GenericDeclaration::new().with_generics(names);
    assert_eq!(declaration.render(), "<T, U>");
    assert_eq!(GenericDeclaration::new().render(), "<>");
}
