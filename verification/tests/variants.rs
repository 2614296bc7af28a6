use full_moon::ast::punctuated::{Pair, Punctuated};
use full_moon::ast::span::ContainedSpan;
use full_moon::ast::types::{CompoundOp, IndexedTypeInfo, TypeField, TypeFieldKey, TypeInfo};
use full_moon::ast::Expression;
use full_moon::tokenizer::{Token, TokenReference, TokenType};
use std::borrow::Cow;

fn name(text: &'static str) -> TokenReference<'static> {
    TokenReference::new(
        Vec::new(),
        Token::new(TokenType::Identifier { identifier: Cow::Borrowed(text) }),
        Vec::new(),
    )
}

fn symbol(text: &str) -> TokenReference<'static> {
    TokenReference::symbol(text).unwrap()
}

fn basic(text: &'static str) -> TypeInfo<'static> {
    TypeInfo::Basic(name(text))
}

fn span(open: &str, close: &str) -> ContainedSpan<'static> {
    ContainedSpan::new(symbol(open), symbol(close))
}

fn list(texts: &[&'static str]) -> Punctuated<'static, TypeInfo<'static>> {
    let mut list = Punctuated::new();
    for (at, text) in texts.iter().enumerate() {
        if at + 1 < texts.len() {
            list.push(Pair::Punctuated(basic(text), symbol(", ")));
        } else {
            list.push(Pair::End(basic(text)));
        }
    }
    list
}

fn callback() -> TypeInfo<'static> {
    TypeInfo::Callback {
        parentheses: span("(", ")"),
        arguments: list(&["a", "b"]),
        arrow: symbol(" -> "),
        return_type: Box::new(basic("c")),
    }
}

#[test]
fn parts_of_a_callback_are_read_and_replaced() {
    let node = callback();
    assert_eq!(node.render(), "(a, b) -> c");
    assert!(*node.callback_parentheses().unwrap() == span("(", ")"));
    assert_eq!(node.callback_arguments().unwrap().len(), 2);
    assert!(*node.callback_arrow().unwrap() == symbol(" -> "));
    assert!(*node.callback_return_type().unwrap() == basic("c"));

    let changed = node.clone().with_callback_parentheses(span("( ", " )"));
    assert_eq!(changed.render(), "( a, b ) -> c");
    assert!(*changed.callback_parentheses().unwrap() == span("( ", " )"));
    assert!(changed.callback_arrow() == node.callback_arrow());
    assert!(changed.callback_return_type() == node.callback_return_type());

    let changed = node.clone().with_callback_arguments(list(&["x"]));
    assert_eq!(changed.render(), "(x) -> c");
    assert!(changed.callback_parentheses() == node.callback_parentheses());
    assert!(changed.callback_arrow() == node.callback_arrow());
    assert!(changed.callback_return_type() == node.callback_return_type());

    let changed = node.clone().with_callback_arrow(symbol("->"));
    assert_eq!(changed.render(), "(a, b)->c");
    assert!(*changed.callback_arrow().unwrap() == symbol("->"));
    assert!(changed.callback_parentheses() == node.callback_parentheses());

    let changed = node.clone().with_callback_return_type(Box::new(basic("d")));
    assert_eq!(changed.render(), "(a, b) -> d");
    assert!(*changed.callback_return_type().unwrap() == basic("d"));
    assert!(changed.callback_arrow() == node.callback_arrow());

    assert_eq!(node.render(), "(a, b) -> c");
}

#[test]
fn parts_of_another_variant_are_not_there() {
    let node = basic("a");
    assert!(node.callback_arrow().is_none());
    assert!(node.array_braces().is_none());
    assert!(node.array_type_info().is_none());
    assert!(node.optional_base().is_none());
    assert!(node.union_left().is_none());
    assert!(node.table_fields().is_none());
    assert!(*node.basic_token().unwrap() == name("a"));
    assert!(callback().basic_token().is_none());

    let same = node.clone().with_callback_arrow(symbol("->"));
    assert!(same == node);
    let same = node.clone().with_optional_question_mark(symbol("?"));
    assert!(same == node);
    let same = callback().with_basic_token(name("z"));
    assert!(same == callback());
    let changed = node.with_basic_token(name("z"));
    assert!(changed == basic("z"));
}

#[test]
fn every_variant_of_a_type_has_its_parts() {
    let array = TypeInfo::Array { braces: span("{", "}"), type_info: Box::new(basic("a")) };
    assert!(*array.array_braces().unwrap() == span("{", "}"));
    assert!(*array.array_type_info().unwrap() == basic("a"));
    assert_eq!(array.clone().with_array_braces(span("{ ", " }")).render(), "{ a }");
    assert_eq!(array.with_array_type_info(Box::new(basic("b"))).render(), "{b}");

    let generic = TypeInfo::Generic {
        base: name("m"),
        arrows: span("<", ">"),
        generics: list(&["a"]),
    };
    assert!(*generic.generic_base().unwrap() == name("m"));
    assert!(*generic.generic_arrows().unwrap() == span("<", ">"));
    assert_eq!(generic.generic_generics().unwrap().len(), 1);
    assert_eq!(generic.clone().with_generic_base(name("n")).render(), "n<a>");
    assert_eq!(generic.clone().with_generic_arrows(span("< ", " >")).render(), "m< a >");
    assert_eq!(generic.with_generic_generics(list(&["a", "b"])).render(), "m<a, b>");

    let intersection = TypeInfo::Intersection {
        left: Box::new(basic("a")),
        ampersand: symbol(" & "),
        right: Box::new(basic("b")),
    };
    assert!(*intersection.intersection_left().unwrap() == basic("a"));
    assert!(*intersection.intersection_ampersand().unwrap() == symbol(" & "));
    assert!(*intersection.intersection_right().unwrap() == basic("b"));
    assert!(intersection.union_left().is_none());
    assert_eq!(intersection.clone().with_intersection_left(Box::new(basic("x"))).render(), "x & b");
    assert_eq!(intersection.clone().with_intersection_ampersand(symbol("&")).render(), "a&b");
    assert_eq!(intersection.with_intersection_right(Box::new(basic("y"))).render(), "a & y");

    let module = TypeInfo::Module {
        module: name("m"),
        punctuation: symbol("."),
        type_info: Box::new(IndexedTypeInfo::Basic(name("T"))),
    };
    assert!(*module.module_module().unwrap() == name("m"));
    assert!(*module.module_punctuation().unwrap() == symbol("."));
    assert!(*module.module_type_info().unwrap() == IndexedTypeInfo::Basic(name("T")));
    assert_eq!(module.clone().with_module_module(name("n")).render(), "n.T");
    assert_eq!(module.clone().with_module_punctuation(symbol(" . ")).render(), "m . T");
    let inner = IndexedTypeInfo::Generic {
        base: name("U"),
        arrows: span("<", ">"),
        generics: list(&["a"]),
    };
    assert_eq!(module.with_module_type_info(Box::new(inner)).render(), "m.U<a>");

    let optional = TypeInfo::Optional { base: Box::new(basic("a")), question_mark: symbol("?") };
    assert!(*optional.optional_base().unwrap() == basic("a"));
    assert!(*optional.optional_question_mark().unwrap() == symbol("?"));
    assert_eq!(optional.clone().with_optional_base(Box::new(basic("b"))).render(), "b?");
    assert_eq!(optional.with_optional_question_mark(symbol(" ?")).render(), "a ?");

    let mut fields = Punctuated::new();
    fields.push(Pair::End(TypeField::new(TypeFieldKey::Name(name("k")), basic("v"))));
    let table = TypeInfo::Table { braces: span("{", "}"), fields };
    assert!(*table.table_braces().unwrap() == span("{", "}"));
    assert_eq!(table.table_fields().unwrap().len(), 1);
    assert!(table.array_braces().is_none());
    assert_eq!(table.clone().with_table_braces(span("{ ", " }")).render(), "{ k: v }");
    assert_eq!(table.with_table_fields(Punctuated::new()).render(), "{}");

    let type_of = TypeInfo::Typeof {
        typeof_token: name("typeof"),
        parentheses: span("(", ")"),
        inner: Box::new(Expression::new(vec![name("x")])),
    };
    assert!(*type_of.typeof_token().unwrap() == name("typeof"));
    assert!(*type_of.typeof_parentheses().unwrap() == span("(", ")"));
    assert!(*type_of.typeof_inner().unwrap() == Expression::new(vec![name("x")]));
    assert_eq!(type_of.clone().with_typeof_token(name("typeof ")).render(), "typeof (x)");
    assert_eq!(type_of.clone().with_typeof_parentheses(span("( ", " )")).render(), "typeof( x )");
    assert_eq!(
        type_of.with_typeof_inner(Box::new(Expression::new(vec![name("y")]))).render(),
        "typeof(y)"
    );

    let tuple = TypeInfo::Tuple { parentheses: span("(", ")"), types: list(&["a", "b"]) };
    assert!(*tuple.tuple_parentheses().unwrap() == span("(", ")"));
    assert_eq!(tuple.tuple_types().unwrap().len(), 2);
    assert_eq!(tuple.clone().with_tuple_parentheses(span("( ", " )")).render(), "( a, b )");
    assert_eq!(tuple.with_tuple_types(list(&["c"])).render(), "(c)");

    let union = TypeInfo::Union {
        left: Box::new(basic("a")),
        pipe: symbol(" | "),
        right: Box::new(basic("b")),
    };
    assert!(*union.union_left().unwrap() == basic("a"));
    assert!(*union.union_pipe().unwrap() == symbol(" | "));
    assert!(*union.union_right().unwrap() == basic("b"));
    assert_eq!(union.clone().with_union_left(Box::new(basic("x"))).render(), "x | b");
    assert_eq!(union.clone().with_union_pipe(symbol("|")).render(), "a|b");
    assert_eq!(union.with_union_right(Box::new(basic("y"))).render(), "a | y");

    let variadic = TypeInfo::Variadic { ellipse: symbol("..."), type_info: Box::new(basic("a")) };
    assert!(*variadic.variadic_ellipse().unwrap() == symbol("..."));
    assert!(*variadic.variadic_type_info().unwrap() == basic("a"));
    assert!(variadic.array_type_info().is_none());
    assert_eq!(variadic.clone().with_variadic_ellipse(symbol("... ")).render(), "... a");
    assert_eq!(variadic.with_variadic_type_info(Box::new(basic("b"))).render(), "...b");
}

#[test]
fn parts_of_indexed_types_and_keys() {
    let plain = IndexedTypeInfo::Basic(name("T"));
    assert!(*plain.basic_token().unwrap() == name("T"));
    assert!(plain.generic_base().is_none());
    assert!(plain.clone().with_generic_base(name("U")) == plain);
    assert!(plain.with_basic_token(name("U")) == IndexedTypeInfo::Basic(name("U")));

    let generic =
        IndexedTypeInfo::Generic {
            base: name("T"),
            arrows: span("<", ">"),
            generics: list(&["a"]),
        };
    assert!(*generic.generic_base().unwrap() == name("T"));
    assert!(*generic.generic_arrows().unwrap() == span("<", ">"));
    assert_eq!(generic.generic_generics().unwrap().len(), 1);
    assert!(generic.basic_token().is_none());
    assert_eq!(generic.clone().with_generic_base(name("U")).render(), "U<a>");
    assert_eq!(generic.clone().with_generic_arrows(span("< ", " >")).render(), "T< a >");
    assert_eq!(generic.with_generic_generics(list(&["b", "c"])).render(), "T<b, c>");

    let key = TypeFieldKey::Name(name("k"));
    assert!(*key.name_token().unwrap() == name("k"));
    assert!(key.index_signature_inner().is_none());
    assert!(key.clone().with_index_signature_inner(basic("a")) == key);
    assert!(key.with_name_token(name("j")) == TypeFieldKey::Name(name("j")));

    let index = TypeFieldKey::IndexSignature { brackets: span("[", "]"), inner: basic("a") };
    assert!(*index.index_signature_brackets().unwrap() == span("[", "]"));
    assert!(*index.index_signature_inner().unwrap() == basic("a"));
    assert!(index.name_token().is_none());
    assert_eq!(index.clone().with_index_signature_brackets(span("[ ", " ]")).render(), "[ a ]");
    assert_eq!(index.with_index_signature_inner(basic("b")).render(), "[b]");
}

#[test]
fn an_operator_keeps_its_kind_under_another_token() {
    let operator = CompoundOp::StarEqual(symbol("*="));
    let changed = operator.with_token(symbol(" *= "));
    assert!(changed == CompoundOp::StarEqual(symbol(" *= ")));
    assert_eq!(changed.render(), " *= ");
    let changed = CompoundOp::PlusEqual(symbol("+=")).with_token(symbol("-="));
    assert!(matches!(changed, CompoundOp::PlusEqual(_)));
    assert_eq!(changed.render(), "-=");
}
