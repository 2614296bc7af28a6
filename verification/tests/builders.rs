use full_moon::ast::punctuated::{Pair, Punctuated};
use full_moon::ast::span::ContainedSpan;
use full_moon::ast::types::{
    CompoundAssignment, CompoundOp, ExportedTypeDeclaration, GenericDeclaration, TypeAssertion,
    TypeDeclaration, TypeField, TypeFieldKey, TypeInfo, TypeSpecifier,
};
use full_moon::ast::{Expression, Var};
use full_moon::tokenizer::{Token, TokenReference, TokenType};
use std::borrow::Cow;

fn name(text: &'static str) -> TokenReference<'static> {
    TokenReference::new(
        Vec::new(),
        Token::new(TokenType::Identifier { identifier: Cow::Borrowed(text) }),
        Vec::new(),
    )
}

fn symbol(text: &str) -> TokenReference<'static> {
    TokenReference::symbol(text).unwrap()
}

fn basic(text: &'static str) -> TypeInfo<'static> {
    TypeInfo::Basic(name(text))
}

fn names(texts: &[&'static str]) -> Punctuated<'static, TokenReference<'static>> {
    let mut list = Punctuated::new();
    for (at, text) in texts.iter().enumerate() {
        if at + 1 < texts.len() {
            list.push(Pair::Punctuated(name(text), symbol(", ")));
        } else {
            list.push(Pair::End(name(text)));
        }
    }
    list
}

#[test]
fn type_field_new_puts_a_colon_and_a_space() {
    let field = TypeField::new(TypeFieldKey::Name(name("foo")), basic("number"));
    assert_eq!(field.render(), "foo: number");
    assert!(*field.colon_token() == symbol(": "));
    assert!(*field.key() == TypeFieldKey::Name(name("foo")));
    assert!(*field.value() == basic("number"));
}

#[test]
fn type_field_builders_change_one_part() {
    let field = TypeField::new(TypeFieldKey::Name(name("foo")), basic("number"));

    let changed = field.clone().with_key(TypeFieldKey::Name(name("bar")));
    assert!(*changed.key() == TypeFieldKey::Name(name("bar")));
    assert!(changed.colon_token() == field.colon_token());
    assert!(changed.value() == field.value());
    assert_eq!(changed.render(), "bar: number");

    let changed = field.clone().with_colon_token(symbol(" :"));
    assert!(*changed.colon_token() == symbol(" :"));
    assert!(changed.key() == field.key());
    assert!(changed.value() == field.value());
    assert_eq!(changed.render(), "foo :number");

    let changed = field.clone().with_value(basic("string"));
    assert!(*changed.value() == basic("string"));
    assert!(changed.key() == field.key());
    assert!(changed.colon_token() == field.colon_token());
    assert_eq!(changed.render(), "foo: string");

    assert_eq!(field.render(), "foo: number");
}

#[test]
fn index_signature_key_renders_in_brackets() {
    let key = TypeFieldKey::IndexSignature {
        brackets: ContainedSpan::new(symbol("["), symbol("]")),
        inner: basic("number"),
    };
    let field = TypeField::new(key, basic("string"));
    assert_eq!(field.render(), "[number]: string");
}

#[test]
fn type_assertion_new_puts_two_colons() {
    let assertion = TypeAssertion::new(basic("number"));
    assert_eq!(assertion.render(), "::number");
    assert!(*assertion.assertion_op() == symbol("::"));
    assert!(*assertion.cast_to() == basic("number"));
}

#[test]
fn type_assertion_builders_change_one_part() {
    let assertion = TypeAssertion::new(basic("number"));

    let changed = assertion.clone().with_assertion_op(symbol(" :: "));
    assert!(*changed.assertion_op() == symbol(" :: "));
    assert!(changed.cast_to() == assertion.cast_to());
    assert_eq!(changed.render(), " :: number");

    let changed = assertion.clone().with_cast_to(basic("string"));
    assert!(*changed.cast_to() == basic("string"));
    assert!(changed.assertion_op() == assertion.assertion_op());
    assert_eq!(changed.render(), "::string");
}

#[test]
fn type_declaration_new_is_written_in_full() {
    let declaration = TypeDeclaration::new(name("Meters"), basic("number"));
    assert_eq!(declaration.render(), "type Meters = number");
    assert!(*declaration.type_token() == TokenReference::word("type"));
    assert!(*declaration.name() == name("Meters"));
    assert!(declaration.generics().is_none());
    assert!(*declaration.equal_token() == symbol(" = "));
    assert!(*declaration.type_definition() == basic("number"));
}

#[test]
fn type_declaration_builders_change_one_part() {
    let declaration = TypeDeclaration::new(name("Meters"), basic("number"));

    let changed = declaration.clone().with_type_token(name("type\t"));
    assert!(*changed.type_token() == name("type\t"));
    assert!(changed.name() == declaration.name());
    assert!(changed.generics() == declaration.generics());
    assert!(changed.equal_token() == declaration.equal_token());
    assert!(changed.type_definition() == declaration.type_definition());
    assert_eq!(changed.render(), "type\tMeters = number");

    let changed = declaration.clone().with_type_name(name("Feet"));
    assert!(*changed.name() == name("Feet"));
    assert!(changed.type_token() == declaration.type_token());
    assert!(changed.generics() == declaration.generics());
    assert!(changed.equal_token() == declaration.equal_token());
    assert!(changed.type_definition() == declaration.type_definition());
    assert_eq!(changed.render(), "type Feet = number");

    let generics = GenericDeclaration::new().with_generics(names(&["T"]));
    let changed = declaration.clone().with_generics(Some(generics.clone()));
    assert!(changed.generics() == Some(&generics));
    assert!(changed.type_token() == declaration.type_token());
    assert!(changed.name() == declaration.name());
    assert!(changed.equal_token() == declaration.equal_token());
    assert!(changed.type_definition() == declaration.type_definition());
    assert_eq!(changed.render(), "type Meters<T> = number");
    let cleared = changed.with_generics(None);
    assert!(cleared == declaration);

    let changed = declaration.clone().with_equal_token(symbol("="));
    assert!(*changed.equal_token() == symbol("="));
    assert!(changed.type_token() == declaration.type_token());
    assert!(changed.name() == declaration.name());
    assert!(changed.generics() == declaration.generics());
    assert!(changed.type_definition() == declaration.type_definition());
    assert_eq!(changed.render(), "type Meters=number");

    let changed = declaration.clone().with_type_definition(basic("string"));
    assert!(*changed.type_definition() == basic("string"));
    assert!(changed.type_token() == declaration.type_token());
    assert!(changed.name() == declaration.name());
    assert!(changed.generics() == declaration.generics());
    assert!(changed.equal_token() == declaration.equal_token());
    assert_eq!(changed.render(), "type Meters = string");
}

#[test]
fn generic_declaration_new_is_empty_angle_brackets() {
    let declaration = GenericDeclaration::new();
    assert_eq!(declaration.render(), "<>");
    assert!(declaration.generics().is_empty());
    let (open, close) = declaration.arrows().tokens();
    assert!(*open == symbol("<"));
    assert!(*close == symbol(">"));
}

#[test]
fn generic_declaration_builders_change_one_part() {
    let declaration = GenericDeclaration::new().with_generics(names(&["T", "U"]));
    assert_eq!(declaration.generics().len(), 2);
    assert_eq!(declaration.render(), "<T, U>");

    let changed = declaration.clone().with_arrows(ContainedSpan::new(symbol("< "), symbol(" >")));
    assert!(*changed.arrows() == ContainedSpan::new(symbol("< "), symbol(" >")));
    assert_eq!(changed.generics().len(), 2);
    assert_eq!(changed.render(), "< T, U >");

    let changed = declaration.clone().with_generics(names(&["K"]));
    assert_eq!(changed.generics().len(), 1);
    assert!(changed.arrows() == declaration.arrows());
    assert_eq!(changed.render(), "<K>");
}

#[test]
fn type_specifier_new_puts_a_colon_and_a_space() {
    let specifier = TypeSpecifier::new(basic("number"));
    assert_eq!(specifier.render(), ": number");
    assert!(*specifier.punctuation() == symbol(": "));
    assert!(*specifier.type_info() == basic("number"));
}

#[test]
fn type_specifier_builders_change_one_part() {
    let specifier = TypeSpecifier::new(basic("number"));

    let changed = specifier.clone().with_punctuation(symbol(":"));
    assert!(*changed.punctuation() == symbol(":"));
    assert!(changed.type_info() == specifier.type_info());
    assert_eq!(changed.render(), ":number");

    let changed = specifier.clone().with_type_info(basic("string"));
    assert!(*changed.type_info() == basic("string"));
    assert!(changed.punctuation() == specifier.punctuation());
    assert_eq!(changed.render(), ": string");
}

#[test]
fn exported_type_declaration_new_puts_export_first() {
    let exported =
        ExportedTypeDeclaration::new(TypeDeclaration::new(name("Meters"), basic("number")));
    assert_eq!(exported.render(), "export type Meters = number");
    assert!(*exported.export_token() == TokenReference::word("export"));
    assert!(
        *exported.type_declaration() == TypeDeclaration::new(name("Meters"), basic("number"))
    );
}

#[test]
fn exported_type_declaration_builders_change_one_part() {
    let exported =
        ExportedTypeDeclaration::new(TypeDeclaration::new(name("Meters"), basic("number")));

    let changed = exported.clone().with_export_token(name("export  "));
    assert!(*changed.export_token() == name("export  "));
    assert!(changed.type_declaration() == exported.type_declaration());
    assert_eq!(changed.render(), "export  type Meters = number");

    let other = TypeDeclaration::new(name("Feet"), basic("number"));
    let changed = exported.clone().with_type_declaration(other.clone());
    assert!(*changed.type_declaration() == other);
    assert!(changed.export_token() == exported.export_token());
    assert_eq!(changed.render(), "export type Feet = number");
}

fn assignment() -> CompoundAssignment<'static> {
    CompoundAssignment::new(
        Var::new(vec![name("x")]),
        CompoundOp::MinusEqual(symbol(" -= ")),
        Expression::new(vec![name("y")]),
    )
}

#[test]
fn compound_assignment_new_keeps_its_parts() {
    let assignment = assignment();
    assert_eq!(assignment.render(), "x -= y");
    assert!(*assignment.lhs() == Var::new(vec![name("x")]));
    assert!(*assignment.compound_operator() == CompoundOp::MinusEqual(symbol(" -= ")));
    assert!(*assignment.rhs() == Expression::new(vec![name("y")]));
    assert!(*assignment.compound_operator().token() == symbol(" -= "));
}

#[test]
fn compound_assignment_builders_change_one_part() {
    let assignment = assignment();

    let changed = assignment.clone().with_lhs(Var::new(vec![name("a"), symbol("."), name("b")]));
    assert!(*changed.lhs() == Var::new(vec![name("a"), symbol("."), name("b")]));
    assert!(changed.compound_operator() == assignment.compound_operator());
    assert!(changed.rhs() == assignment.rhs());
    assert_eq!(changed.render(), "a.b -= y");

    let changed = assignment.clone().with_compound_operator(
        CompoundOp::TwoDotsEqual(symbol(" ..= "))
    );
    assert!(*changed.compound_operator() == CompoundOp::TwoDotsEqual(symbol(" ..= ")));
    assert!(changed.lhs() == assignment.lhs());
    assert!(changed.rhs() == assignment.rhs());
    assert_eq!(changed.render(), "x ..= y");

    let changed = assignment.clone().with_rhs(Expression::new(vec![name("z")]));
    assert!(*changed.rhs() == Expression::new(vec![name("z")]));
    assert!(changed.lhs() == assignment.lhs());
    assert!(changed.compound_operator() == assignment.compound_operator());
    assert_eq!(changed.render(), "x -= z");
}

#[test]
fn compound_operators_differ_by_kind() {
    let operators = [
        CompoundOp::PlusEqual(symbol("+=")),
        CompoundOp::MinusEqual(symbol("-=")),
        CompoundOp::StarEqual(symbol("*=")),
        CompoundOp::SlashEqual(symbol("/=")),
        CompoundOp::PercentEqual(symbol("%=")),
        CompoundOp::CaretEqual(symbol("^=")),
        CompoundOp::TwoDotsEqual(symbol("..=")),
    ];
    let texts = ["+=", "-=", "*=", "/=", "%=", "^=", "..="];
    for (i, operator) in operators.iter().enumerate() {
        assert_eq!(operator.render(), texts[i]);
        for (j, other) in operators.iter().enumerate() {
            assert_eq!(operator == other, i == j);
        }
    }
    assert!(CompoundOp::PlusEqual(symbol("+=")) != CompoundOp::MinusEqual(symbol("+=")));
}

#[test]
fn punctuated_lists_keep_their_pairs() {
    let mut list: Punctuated<'static, TypeInfo<'static>> = Punctuated::new();
    assert!(list.is_empty());
    assert_eq!(list.len(), 0);
    assert!(list.get(0).is_none());
    list.push(Pair::new(basic("a"), Some(symbol(","))));
    list.push(Pair::new(basic("b"), None));
    assert!(!list.is_empty());
    assert_eq!(list.len(), 2);
    let first = list.get(0).unwrap();
    assert!(*first.value() == basic("a"));
    assert!(first.punctuation() == Some(&symbol(",")));
    let second = list.get(1).unwrap();
    assert!(*second.value() == basic("b"));
    assert!(second.punctuation().is_none());
    assert!(list.get(2).is_none());
    assert!(Pair::new(basic("c"), Some(symbol(","))).into_value() == basic("c"));
}
