use full_moon::ast::punctuated::{Pair, Punctuated};
use full_moon::ast::span::ContainedSpan;
use full_moon::ast::types::{
    CompoundAssignment, CompoundOp, ExportedTypeDeclaration, GenericDeclaration, IndexedTypeInfo,
    TypeAssertion, TypeDeclaration, TypeField, TypeFieldKey, TypeInfo, TypeSpecifier,
};
use full_moon::ast::{Expression, Var};
use full_moon::rewrite::{Rewriter, Unchanged};
use full_moon::tokenizer::{Position, Token, TokenReference, TokenType};
use full_moon::visitors::{NodeRef, Recorder, Step, Visitor};
use std::borrow::Cow;

/// Reads `source` as a run of tokens the way a lexer would hand them over:
/// names, numbers and symbols, each with the whitespace after it as trailing
/// trivia, and with its place in `source`.
fn lex(source: &str) -> Vec<TokenReference<'_>> {
    let bytes = source.as_bytes();
    let mut tokens = Vec::new();
    let mut at = 0;
    while at < bytes.len() {
        let start = at;
        let first = bytes[at];
        if first.is_ascii_alphabetic() || first == b'_' {
            while at < bytes.len() && (bytes[at].is_ascii_alphanumeric() || bytes[at] == b'_') {
                at += 1;
            }
        } else if first.is_ascii_digit() {
            while at < bytes.len() && bytes[at].is_ascii_digit() {
                at += 1;
            }
        } else {
            let longest = ["...", "..=", "->", "::", "+=", "-=", ".."];
            let found = longest.iter().find(|text| source[at..].starts_with(**text));
            at += found.map_or(1, |text| text.len());
        }
        let text = &source[start..at];
        let token_type = if first.is_ascii_alphabetic() || first == b'_' {
            TokenType::Identifier { identifier: Cow::Borrowed(text) }
        } else if first.is_ascii_digit() {
            TokenType::Number { text: Cow::Borrowed(text) }
        } else {
            TokenType::Symbol { symbol: full_moon::tokenizer::Symbol::from_str(text).unwrap() }
        };
        let token =
            Token::positioned(
                Position::new(start, 1, start + 1),
                Position::new(at, 1, at + 1),
                token_type,
            );
        let space = at;
        while at < bytes.len() && bytes[at] == b' ' {
            at += 1;
        }
        let mut trailing = Vec::new();
        if at > space {
            trailing.push(Token::positioned(
                Position::new(space, 1, space + 1),
                Position::new(at, 1, at + 1),
                TokenType::Whitespace { characters: Cow::Borrowed(&source[space..at]) },
            ));
        }
        tokens.push(TokenReference::new(Vec::new(), token, trailing));
    }
    tokens
}

/// The type written as `{ [number]: string?, f: (a, ...b) -> m.T<c> & typeof(x) }`.
fn table<'a>(source: &'a str) -> TypeInfo<'a> {
    let mut tokens = lex(source).into_iter();
    let mut next = move || tokens.next().unwrap();
    let open = next();
    let index_open = next();
    let index = TypeInfo::Basic(next());
    let index_close = next();
    let first_colon = next();
    let string = TypeInfo::Basic(next());
    let question_mark = next();
    let comma = next();
    let key = TypeFieldKey::Name(next());
    let second_colon = next();
    let arguments_open = next();
    let a = TypeInfo::Basic(next());
    let arguments_comma = next();
    let ellipse = next();
    let b = TypeInfo::Basic(next());
    let arguments_close = next();
    let arrow = next();
    let module = next();
    let dot = next();
    let base = next();
    let arrows_open = next();
    let c = TypeInfo::Basic(next());
    let arrows_close = next();
    let ampersand = next();
    let typeof_token = next();
    let typeof_open = next();
    let x = next();
    let typeof_close = next();
    let close = next();

    let mut generics = Punctuated::new();
    generics.push(Pair::End(c));
    let mut arguments = Punctuated::new();
    arguments.push(Pair::Punctuated(a, arguments_comma));
    arguments.push(Pair::End(TypeInfo::Variadic { ellipse, type_info: Box::new(b) }));
    let callback = TypeInfo::Callback {
        parentheses: ContainedSpan::new(arguments_open, arguments_close),
        arguments,
        arrow,
        return_type: Box::new(TypeInfo::Intersection {
            left: Box::new(TypeInfo::Module {
                module,
                punctuation: dot,
                type_info: Box::new(IndexedTypeInfo::Generic {
                    base,
                    arrows: ContainedSpan::new(arrows_open, arrows_close),
                    generics,
                }),
            }),
            ampersand,
            right: Box::new(TypeInfo::Typeof {
                typeof_token,
                parentheses: ContainedSpan::new(typeof_open, typeof_close),
                inner: Box::new(Expression::new(vec![x])),
            }),
        }),
    };
    let mut fields = Punctuated::new();
    fields.push(Pair::Punctuated(
        TypeField::new(
            TypeFieldKey::IndexSignature {
                brackets: ContainedSpan::new(index_open, index_close),
                inner: index,
            },
            TypeInfo::Optional { base: Box::new(string), question_mark },
        )
        .with_colon_token(first_colon),
        comma,
    ));
    fields.push(Pair::End(TypeField::new(key, callback).with_colon_token(second_colon)));
    TypeInfo::Table { braces: ContainedSpan::new(open, close), fields }
}

const SOURCE: &str = "{ [number]: string?, f: (a, ...b) -> m.T<c> & typeof(x) }";

#[test]
fn a_tree_renders_as_its_source() {
    let tree = table(SOURCE);
    assert_eq!(tree.render(), SOURCE);
    let mut out = String::from("type T = ");
    tree.render_into(&mut out);
    assert_eq!(out, format!("type T = {}", SOURCE));
}

#[test]
fn every_kind_of_type_renders_its_parts_in_order() {
    let tokens = |source| lex(source);
    let mut array = tokens("{ number }").into_iter();
    let (
        open,
        inner,
        close,
    ) = (array.next().unwrap(), array.next().unwrap(), array.next().unwrap());
    let array = TypeInfo::Array {
        braces: ContainedSpan::new(open, close),
        type_info: Box::new(TypeInfo::Basic(inner)),
    };
    assert_eq!(array.render(), "{ number }");

    let mut tuple = tokens("(string, number)").into_iter();
    let open = tuple.next().unwrap();
    let mut types = Punctuated::new();
    types.push(Pair::Punctuated(
        TypeInfo::Basic(tuple.next().unwrap()),
        tuple.next().unwrap(),
    ));
    types.push(Pair::End(TypeInfo::Basic(tuple.next().unwrap())));
    let tuple = TypeInfo::Tuple {
        parentheses: ContainedSpan::new(open, tuple.next().unwrap()),
        types,
    };
    assert_eq!(tuple.render(), "(string, number)");

    let mut generic = tokens("map<number, string>").into_iter();
    let base = generic.next().unwrap();
    let open = generic.next().unwrap();
    let mut generics = Punctuated::new();
    generics.push(Pair::Punctuated(
        TypeInfo::Basic(generic.next().unwrap()),
        generic.next().unwrap(),
    ));
    generics.push(Pair::End(TypeInfo::Basic(generic.next().unwrap())));
    let generic = TypeInfo::Generic {
        base,
        arrows: ContainedSpan::new(open, generic.next().unwrap()),
        generics,
    };
    assert_eq!(generic.render(), "map<number, string>");

    let mut module = tokens("module.Foo").into_iter();
    let module = TypeInfo::Module {
        module: module.next().unwrap(),
        punctuation: module.next().unwrap(),
        type_info: Box::new(IndexedTypeInfo::Basic(module.next().unwrap())),
    };
    assert_eq!(module.render(), "module.Foo");
}

#[test]
fn a_node_spans_from_its_first_token_to_its_last() {
    let tree = table(SOURCE);
    assert_eq!(tree.start_position(), Some(Position::new(0, 1, 1)));
    assert_eq!(tree.end_position(), Some(Position::new(SOURCE.len(), 1, SOURCE.len() + 1)));
    assert_eq!(
        tree.range(),
        Some((Position::new(0, 1, 1), Position::new(SOURCE.len(), 1, SOURCE.len() + 1)))
    );
    let fields = match &tree {
        TypeInfo::Table { fields, .. } => fields,
        _ => panic!("not a table"),
    };
    let first = fields.get(0).unwrap().value();
    let at = |text: &str| SOURCE.find(text).unwrap();
    assert_eq!(first.start_position(), Some(Position::new(at("["), 1, at("[") + 1)));
    assert_eq!(first.end_position(), Some(Position::new(at("?") + 1, 1, at("?") + 2)));
    assert_eq!(first.key().end_position(), Some(Position::new(at("]") + 1, 1, at("]") + 2)));
    let second = fields.get(1).unwrap().value();
    assert_eq!(second.start_position(), Some(Position::new(at("f:"), 1, at("f:") + 1)));
    // The space after the last parenthesis is trivia and outside the span.
    assert_eq!(second.end_position(), Some(Position::new(at(") }") + 1, 1, at(") }") + 2)));
    let callback = second.value();
    assert_eq!(callback.start_position(), Some(Position::new(at("(a"), 1, at("(a") + 1)));
    match callback {
        TypeInfo::Callback { return_type, .. } => {
            assert_eq!(
                return_type.start_position(),
                Some(Position::new(at("m."), 1, at("m.") + 1)),
            );
            match &**return_type {
                TypeInfo::Intersection { left, right, .. } => {
                    assert_eq!(
                        left.end_position(),
                        Some(Position::new(at("> &") + 1, 1, at("> &") + 2))
                    );
                    assert_eq!(
                        right.start_position(),
                        Some(Position::new(at("typeof"), 1, at("typeof") + 1))
                    );
                },
                _ => panic!("not an intersection"),
            }
        },
        _ => panic!("not a callback"),
    }
}

#[test]
fn spans_follow_replaced_parts() {
    let mut tokens = lex("a: number").into_iter();
    let field = TypeField::new(
        TypeFieldKey::Name(tokens.next().unwrap()),
        TypeInfo::Basic(tokens.nth(1).unwrap()),
    );
    assert_eq!(field.start_position(), Some(Position::new(0, 1, 1)));
    assert_eq!(field.end_position(), Some(Position::new(9, 1, 10)));
    let moved = Token::positioned(
        Position::new(40, 3, 2),
        Position::new(46, 3, 8),
        TokenType::Identifier { identifier: Cow::Borrowed("string") },
    );
    let field = field.with_value(
        TypeInfo::Basic(TokenReference::new(Vec::new(), moved, Vec::new()))
    );
    assert_eq!(field.start_position(), Some(Position::new(0, 1, 1)));
    assert_eq!(field.end_position(), Some(Position::new(46, 3, 8)));
}

#[test]
fn nodes_without_tokens_have_no_span() {
    let empty = Expression::new(Vec::new());
    assert_eq!(empty.start_position(), None);
    assert_eq!(empty.end_position(), None);
    assert_eq!(empty.range(), None);
    assert_eq!(empty.render(), "");
    let assignment = CompoundAssignment::new(
        Var::new(Vec::new()),
        CompoundOp::PlusEqual(TokenReference::symbol("+=").unwrap()),
        Expression::new(lex("1")),
    );
    assert_eq!(assignment.start_position(), None);
    assert_eq!(assignment.end_position(), Some(Position::new(1, 1, 2)));
    assert_eq!(assignment.range(), None);
}

#[test]
fn declarations_span_their_tokens() {
    let mut tokens = lex("export type Meters = number").into_iter();
    let export = tokens.next().unwrap();
    let type_token = tokens.next().unwrap();
    let name = tokens.next().unwrap();
    let equal = tokens.next().unwrap();
    let number = tokens.next().unwrap();
    let declaration = TypeDeclaration::new(name, TypeInfo::Basic(number))
        .with_type_token(type_token)
        .with_equal_token(equal);
    assert_eq!(declaration.range(), Some((Position::new(7, 1, 8), Position::new(27, 1, 28))));
    let exported = ExportedTypeDeclaration::new(declaration).with_export_token(export);
    assert_eq!(exported.range(), Some((Position::new(0, 1, 1), Position::new(27, 1, 28))));
    assert_eq!(exported.render(), "export type Meters = number");

    let mut tokens = lex(": number").into_iter();
    let colon = tokens.next().unwrap();
    let specifier =
        TypeSpecifier::new(TypeInfo::Basic(tokens.next().unwrap())).with_punctuation(colon);
    assert_eq!(specifier.range(), Some((Position::new(0, 1, 1), Position::new(8, 1, 9))));

    let mut tokens = lex(":: number").into_iter();
    let op = tokens.next().unwrap();
    let assertion =
        TypeAssertion::new(TypeInfo::Basic(tokens.next().unwrap())).with_assertion_op(op);
    assert_eq!(assertion.range(), Some((Position::new(0, 1, 1), Position::new(9, 1, 10))));

    let generics = GenericDeclaration::new();
    assert_eq!(generics.range(), Some((Position::default(), Position::default())));
}

#[test]
fn tokens_come_in_source_order() {
    let tree = table(SOURCE);
    let tokens = tree.tokens();
    let expected = lex(SOURCE);
    assert_eq!(tokens.len(), expected.len());
    for (token, expected) in tokens.iter().zip(expected.iter()) {
        assert!(*token == expected);
    }
    let text: String = tokens.iter().map(|token| token.render()).collect();
    assert_eq!(text, SOURCE);
    assert_eq!(Some(tokens[0].start_position()), tree.start_position());
    assert_eq!(Some(tokens[tokens.len() - 1].end_position()), tree.end_position());
}

#[test]
fn tokens_of_declarations_and_statements() {
    let declaration = TypeDeclaration::new(
        lex("Pair").remove(0),
        TypeInfo::Basic(lex("T").remove(0)),
    )
    .with_generics(Some(GenericDeclaration::new()));
    let texts: Vec<String> = declaration.tokens().iter().map(|token| token.render()).collect();
    assert_eq!(texts, ["type ", "Pair", "<", ">", " = ", "T"]);

    let assignment = CompoundAssignment::new(
        Var::new(lex("a.b ")),
        CompoundOp::CaretEqual(TokenReference::symbol("^= ").unwrap()),
        Expression::new(lex("2")),
    );
    let texts: Vec<String> = assignment.tokens().iter().map(|token| token.render()).collect();
    assert_eq!(texts, ["a", ".", "b ", "^= ", "2"]);
    let mut collected = assignment.lhs().tokens().iter().collect::<Vec<_>>();
    assignment.rhs().collect_tokens(&mut collected);
    assert_eq!(collected.len(), 4);
}

#[test]
fn equality_is_structural() {
    let tree = table(SOURCE);
    assert!(tree == table(SOURCE));
    assert!(tree.equals(&table(SOURCE)));
    // One more space after the comma: the same type, another tree.
    let spaced = SOURCE.replace("?, f", "?,  f");
    assert!(tree != table(&spaced));
    // Another name deep inside.
    let renamed = SOURCE.replace("T<c>", "T<d>");
    assert!(tree != table(&renamed));
    // The same text at other positions.
    let shifted = TypeInfo::Basic(lex("y x").remove(1));
    let unshifted = TypeInfo::Basic(lex("x").remove(0));
    assert_eq!(shifted.render(), unshifted.render());
    assert!(shifted != unshifted);
}

#[test]
fn different_variants_are_never_equal() {
    let token = || lex("x").remove(0);
    let basic = TypeInfo::Basic(token());
    let optional = TypeInfo::Optional {
        base: Box::new(TypeInfo::Basic(token())),
        question_mark: lex("?").remove(0),
    };
    let variadic = TypeInfo::Variadic {
        ellipse: lex("...").remove(0),
        type_info: Box::new(TypeInfo::Basic(token())),
    };
    assert!(basic != optional);
    assert!(optional != variadic);
    let union = TypeInfo::Union {
        left: Box::new(TypeInfo::Basic(token())),
        pipe: lex("|").remove(0),
        right: Box::new(TypeInfo::Basic(token())),
    };
    let intersection = TypeInfo::Intersection {
        left: Box::new(TypeInfo::Basic(token())),
        ampersand: lex("|").remove(0),
        right: Box::new(TypeInfo::Basic(token())),
    };
    assert_eq!(union.render(), intersection.render());
    assert!(union != intersection);
    assert!(IndexedTypeInfo::Basic(token()) == IndexedTypeInfo::Basic(token()));
    assert!(TypeFieldKey::Name(token()) == TypeFieldKey::Name(token()));
    let mut shorter = Punctuated::new();
    shorter.push(Pair::End(TypeInfo::Basic(token())));
    let mut longer = Punctuated::new();
    longer.push(Pair::Punctuated(TypeInfo::Basic(token()), lex(",").remove(0)));
    let parentheses = || ContainedSpan::new(lex("(").remove(0), lex(")").remove(0));
    assert!(
        TypeInfo::Tuple { parentheses: parentheses(), types: shorter }
            != TypeInfo::Tuple { parentheses: parentheses(), types: longer }
    );
}

#[test]
fn an_owned_copy_outlives_the_source() {
    let owned = {
        let source = String::from(SOURCE);
        let tree = table(&source);
        let owned = tree.owned();
        assert!(owned == tree);
        assert_eq!(owned.render(), tree.render());
        assert_eq!(owned.range(), tree.range());
        owned
    };
    assert_eq!(owned.render(), SOURCE);
    assert!(owned == table(SOURCE));
    let copy = owned.clone();
    assert!(copy == owned);
}

#[test]
fn owned_copies_of_every_kind_of_node() {
    let source = String::from("x += 1");
    let tokens = lex(&source);
    let assignment = CompoundAssignment::new(
        Var::new(vec![tokens[0].clone()]),
        CompoundOp::PlusEqual(tokens[1].clone()),
        Expression::new(vec![tokens[2].clone()]),
    );
    let owned: CompoundAssignment<'static> = assignment.owned();
    assert!(owned == assignment);
    assert_eq!(owned.render(), "x += 1");

    let declaration = ExportedTypeDeclaration::new(
        TypeDeclaration::new(tokens[0].clone(), TypeInfo::Basic(tokens[2].clone()))
            .with_generics(Some(GenericDeclaration::new())),
    );
    let owned: ExportedTypeDeclaration<'static> = declaration.owned();
    assert!(owned == declaration);
    assert_eq!(owned.render(), "export type x <> = 1");

    let specifier = TypeSpecifier::new(TypeInfo::Basic(tokens[0].clone()));
    assert!(specifier.owned() == specifier);
    let assertion = TypeAssertion::new(TypeInfo::Basic(tokens[0].clone()));
    assert!(assertion.owned() == assertion);
    let span = ContainedSpan::new(tokens[0].clone(), tokens[2].clone());
    assert!(span.owned() == span);
    assert!(span.clone() == span);
}

fn describe(node: &NodeRef<'_, '_>) -> &'static str {
    match node {
        NodeRef::TypeInfo(_) => "TypeInfo",
        NodeRef::IndexedTypeInfo(_) => "IndexedTypeInfo",
        NodeRef::TypeField(_) => "TypeField",
        NodeRef::TypeFieldKey(_) => "TypeFieldKey",
        NodeRef::TypeAssertion(_) => "TypeAssertion",
        NodeRef::TypeDeclaration(_) => "TypeDeclaration",
        NodeRef::GenericDeclaration(_) => "GenericDeclaration",
        NodeRef::TypeSpecifier(_) => "TypeSpecifier",
        NodeRef::ExportedTypeDeclaration(_) => "ExportedTypeDeclaration",
        NodeRef::CompoundOp(_) => "CompoundOp",
        NodeRef::CompoundAssignment(_) => "CompoundAssignment",
        NodeRef::Expression(_) => "Expression",
        NodeRef::Var(_) => "Var",
    }
}

fn trace(steps: &[Step<'_, '_>]) -> Vec<String> {
    steps
        .iter()
        .map(|step| match step {
            Step::Enter(node) => format!("+{}", describe(node)),
            Step::Token(token) => token.render(),
            Step::Leave(node) => format!("-{}", describe(node)),
        })
        .collect()
}

#[test]
fn a_walk_shows_nodes_and_tokens_in_source_order() {
    let mut tokens = lex("{ a: b? }").into_iter();
    let open = tokens.next().unwrap();
    let key = tokens.next().unwrap();
    let colon = tokens.next().unwrap();
    let base = tokens.next().unwrap();
    let question_mark = tokens.next().unwrap();
    let close = tokens.next().unwrap();
    let mut fields = Punctuated::new();
    fields.push(Pair::End(
        TypeField::new(
            TypeFieldKey::Name(key),
            TypeInfo::Optional { base: Box::new(TypeInfo::Basic(base)), question_mark },
        )
        .with_colon_token(colon),
    ));
    let tree = TypeInfo::Table { braces: ContainedSpan::new(open, close), fields };
    let mut recorder = Recorder::new();
    tree.visit(&mut recorder);
    assert_eq!(
        trace(recorder.steps()),
        [
            "+TypeInfo",
            "{ ",
            "+TypeField",
            "+TypeFieldKey",
            "a",
            "-TypeFieldKey",
            ": ",
            "+TypeInfo",
            "+TypeInfo",
            "b",
            "-TypeInfo",
            "? ",
            "-TypeInfo",
            "-TypeField",
            "}",
            "-TypeInfo",
        ]
    );
    match (&recorder.steps()[0], &recorder.steps()[15]) {
        (Step::Enter(NodeRef::TypeInfo(entered)), Step::Leave(NodeRef::TypeInfo(left))) => {
            assert!(**entered == tree);
            assert!(**left == tree);
        },
        _ => panic!("the walk does not begin and end at the tree"),
    }
}

#[test]
fn a_walk_goes_through_statements_and_declarations() {
    let assignment = CompoundAssignment::new(
        Var::new(lex("x ")),
        CompoundOp::PlusEqual(TokenReference::symbol("+= ").unwrap()),
        Expression::new(lex("1")),
    );
    let mut recorder = Recorder::new();
    assignment.visit(&mut recorder);
    assert_eq!(
        trace(&recorder.into_steps()),
        [
            "+CompoundAssignment",
            "+Var",
            "x ",
            "-Var",
            "+CompoundOp",
            "+= ",
            "-CompoundOp",
            "+Expression",
            "1",
            "-Expression",
            "-CompoundAssignment",
        ]
    );

    let declaration = ExportedTypeDeclaration::new(
        TypeDeclaration::new(lex("P").remove(0), TypeInfo::Basic(lex("T").remove(0))).with_generics(
            Some(GenericDeclaration::new().with_generics({
                let mut names = Punctuated::new();
                names.push(Pair::End(lex("T").remove(0)));
                names
            })),
        ),
    );
    let mut recorder = Recorder::new();
    declaration.visit(&mut recorder);
    assert_eq!(
        trace(recorder.steps()),
        [
            "+ExportedTypeDeclaration",
            "export ",
            "+TypeDeclaration",
            "type ",
            "P",
            "+GenericDeclaration",
            "<",
            "T",
            ">",
            "-GenericDeclaration",
            " = ",
            "+TypeInfo",
            "T",
            "-TypeInfo",
            "-TypeDeclaration",
            "-ExportedTypeDeclaration",
        ]
    );
}

struct Counter {
    types: usize,
    tokens: usize,
    depth: usize,
    deepest: usize,
}

impl<'n, 'a> Visitor<'n, 'a> for Counter {
    fn enter(&mut self, node: NodeRef<'n, 'a>) {
        if let NodeRef::TypeInfo(_) = node {
            self.types += 1;
        }
        self.depth += 1;
        self.deepest = self.deepest.max(self.depth);
    }

    fn token(&mut self, _token: &'n TokenReference<'a>) {
        self.tokens += 1;
    }

    fn leave(&mut self, _node: NodeRef<'n, 'a>) {
        self.depth -= 1;
    }
}

#[test]
fn a_visitor_of_ones_own_is_shown_the_tree() {
    let tree = table(SOURCE);
    let mut counter = Counter { types: 0, tokens: 0, depth: 0, deepest: 0 };
    tree.visit(&mut counter);
    assert_eq!(counter.tokens, lex(SOURCE).len());
    // table, number, string?, string, callback, a, ...b, b, intersection, module, c, typeof
    assert_eq!(counter.types, 12);
    assert_eq!(counter.depth, 0);
    // table > field > callback > intersection > module > indexed > c
    assert_eq!(counter.deepest, 7);
}

#[test]
fn rewriting_nothing_changes_nothing() {
    let tree = table(SOURCE);
    let same = tree.clone().rewrite(&mut Unchanged);
    assert!(same == tree);
    let assignment = CompoundAssignment::new(
        Var::new(lex("x ")),
        CompoundOp::PlusEqual(TokenReference::symbol("+= ").unwrap()),
        Expression::new(lex("1")),
    );
    assert!(assignment.clone().rewrite(&mut Unchanged) == assignment);
    let declaration = ExportedTypeDeclaration::new(
        TypeDeclaration::new(lex("P").remove(0), TypeInfo::Basic(lex("T").remove(0)))
            .with_generics(Some(GenericDeclaration::new())),
    );
    assert!(declaration.clone().rewrite(&mut Unchanged) == declaration);
    assert!(TypeSpecifier::new(TypeInfo::Basic(lex("T").remove(0))).rewrite(&mut Unchanged)
        == TypeSpecifier::new(TypeInfo::Basic(lex("T").remove(0))));
    assert!(TypeAssertion::new(TypeInfo::Basic(lex("T").remove(0))).rewrite(&mut Unchanged)
        == TypeAssertion::new(TypeInfo::Basic(lex("T").remove(0))));
}

/// Takes the trailing whitespace off every token and writes `T?` as `T | nil`.
struct Tidy;

impl<'a> Rewriter<'a> for Tidy {
    fn token(&mut self, token: TokenReference<'a>) -> TokenReference<'a> {
        TokenReference::new(token.leading_trivia().clone(), token.token().clone(), Vec::new())
    }

    fn type_info(&mut self, node: TypeInfo<'a>) -> TypeInfo<'a> {
        match node {
            TypeInfo::Optional { base, .. } => TypeInfo::Union {
                left: base,
                pipe: TokenReference::symbol(" | ").unwrap(),
                right: Box::new(TypeInfo::Basic(TokenReference::new(
                    Vec::new(),
                    Token::new(TokenType::Identifier { identifier: Cow::Borrowed("nil") }),
                    Vec::new(),
                ))),
            },
            other => other,
        }
    }

    fn indexed_type_info(&mut self, node: IndexedTypeInfo<'a>) -> IndexedTypeInfo<'a> {
        node
    }

    fn type_field(&mut self, node: TypeField<'a>) -> TypeField<'a> {
        node
    }

    fn type_field_key(&mut self, node: TypeFieldKey<'a>) -> TypeFieldKey<'a> {
        node
    }

    fn type_assertion(&mut self, node: TypeAssertion<'a>) -> TypeAssertion<'a> {
        node
    }

    fn type_declaration(&mut self, node: TypeDeclaration<'a>) -> TypeDeclaration<'a> {
        node
    }

    fn generic_declaration(&mut self, node: GenericDeclaration<'a>) -> GenericDeclaration<'a> {
        node
    }

    fn type_specifier(&mut self, node: TypeSpecifier<'a>) -> TypeSpecifier<'a> {
        node
    }

    fn exported_type_declaration(
        &mut self,
        node: ExportedTypeDeclaration<'a>,
    ) -> ExportedTypeDeclaration<'a> {
        node
    }

    fn compound_op(&mut self, node: CompoundOp<'a>) -> CompoundOp<'a> {
        node
    }

    fn compound_assignment(&mut self, node: CompoundAssignment<'a>) -> CompoundAssignment<'a> {
        node
    }

    fn expression(&mut self, node: Expression<'a>) -> Expression<'a> {
        node
    }

    fn var(&mut self, node: Var<'a>) -> Var<'a> {
        node
    }
}

#[test]
fn a_rewrite_replaces_tokens_and_nodes() {
    let tree = table(SOURCE);
    let tidy = tree.rewrite(&mut Tidy);
    assert_eq!(tidy.render(), "{[number]:string | nil,f:(a,...b)->m.T<c>&typeof(x)}");

    let specifier = TypeSpecifier::new(TypeInfo::Optional {
        base: Box::new(TypeInfo::Optional {
            base: Box::new(TypeInfo::Basic(lex("T").remove(0))),
            question_mark: lex("?").remove(0),
        }),
        question_mark: lex("?").remove(0),
    });
    assert_eq!(specifier.render(), ": T??");
    // The inner type is rewritten before the outer one sees it, and what a hook
    // gives back is not rewritten again: the colon loses its space, the
    // pipes that were put in keep theirs.
    assert_eq!(specifier.rewrite(&mut Tidy).render(), ":T | nil | nil");

    let assignment = CompoundAssignment::new(
        Var::new(lex("x ")),
        CompoundOp::PlusEqual(TokenReference::symbol("+= ").unwrap()),
        Expression::new(lex("1 ")),
    );
    assert_eq!(assignment.rewrite(&mut Tidy).render(), "x+=1");
}

/// Numbers the tokens in the order in which it is handed them, and counts the
/// nodes it is handed.
struct Numbering {
    tokens: Vec<String>,
    nodes: Vec<&'static str>,
}

impl Numbering {
    fn node(&mut self, kind: &'static str) {
        self.nodes.push(kind);
    }
}

impl<'a> Rewriter<'a> for Numbering {
    fn token(&mut self, token: TokenReference<'a>) -> TokenReference<'a> {
        self.tokens.push(token.render());
        token
    }

    fn type_info(&mut self, node: TypeInfo<'a>) -> TypeInfo<'a> {
        self.node("TypeInfo");
        node
    }

    fn indexed_type_info(&mut self, node: IndexedTypeInfo<'a>) -> IndexedTypeInfo<'a> {
        self.node("IndexedTypeInfo");
        node
    }

    fn type_field(&mut self, node: TypeField<'a>) -> TypeField<'a> {
        self.node("TypeField");
        node
    }

    fn type_field_key(&mut self, node: TypeFieldKey<'a>) -> TypeFieldKey<'a> {
        self.node("TypeFieldKey");
        node
    }

    fn type_assertion(&mut self, node: TypeAssertion<'a>) -> TypeAssertion<'a> {
        self.node("TypeAssertion");
        node
    }

    fn type_declaration(&mut self, node: TypeDeclaration<'a>) -> TypeDeclaration<'a> {
        self.node("TypeDeclaration");
        node
    }

    fn generic_declaration(&mut self, node: GenericDeclaration<'a>) -> GenericDeclaration<'a> {
        self.node("GenericDeclaration");
        node
    }

    fn type_specifier(&mut self, node: TypeSpecifier<'a>) -> TypeSpecifier<'a> {
        self.node("TypeSpecifier");
        node
    }

    fn exported_type_declaration(
        &mut self,
        node: ExportedTypeDeclaration<'a>,
    ) -> ExportedTypeDeclaration<'a> {
        self.node("ExportedTypeDeclaration");
        node
    }

    fn compound_op(&mut self, node: CompoundOp<'a>) -> CompoundOp<'a> {
        self.node("CompoundOp");
        node
    }

    fn compound_assignment(&mut self, node: CompoundAssignment<'a>) -> CompoundAssignment<'a> {
        self.node("CompoundAssignment");
        node
    }

    fn expression(&mut self, node: Expression<'a>) -> Expression<'a> {
        self.node("Expression");
        node
    }

    fn var(&mut self, node: Var<'a>) -> Var<'a> {
        self.node("Var");
        node
    }
}

#[test]
fn a_rewrite_goes_through_the_tree_in_source_order() {
    let tree = table(SOURCE);
    let mut numbering = Numbering { tokens: Vec::new(), nodes: Vec::new() };
    let same = tree.clone().rewrite(&mut numbering);
    assert!(same == tree);
    let expected: Vec<String> = lex(SOURCE).iter().map(|token| token.render()).collect();
    assert_eq!(numbering.tokens, expected);
    // Every node is handed over after its parts.
    assert_eq!(
        numbering.nodes,
        [
            "TypeInfo",        // number
            "TypeFieldKey",    // [number]
            "TypeInfo",        // string
            "TypeInfo",        // string?
            "TypeField",       // [number]: string?
            "TypeFieldKey",    // f
            "TypeInfo",        // a
            "TypeInfo",        // b
            "TypeInfo",        // ...b
            "TypeInfo",        // c
            "IndexedTypeInfo", // T<c>
            "TypeInfo",        // m.T<c>
            "Expression",      // x
            "TypeInfo",        // typeof(x)
            "TypeInfo",        // m.T<c> & typeof(x)
            "TypeInfo",        // (a, ...b) -> m.T<c> & typeof(x)
            "TypeField",       // f: ...
            "TypeInfo",        // the table
        ]
    );

    let declaration = ExportedTypeDeclaration::new(
        TypeDeclaration::new(lex("P").remove(0), TypeInfo::Basic(lex("T").remove(0)))
            .with_generics(Some(GenericDeclaration::new())),
    );
    let mut numbering = Numbering { tokens: Vec::new(), nodes: Vec::new() };
    declaration.rewrite(&mut numbering);
    assert_eq!(numbering.tokens, ["export ", "type ", "P", "<", ">", " = ", "T"]);
    assert_eq!(
        numbering.nodes,
        ["GenericDeclaration", "TypeInfo", "TypeDeclaration", "ExportedTypeDeclaration"]
    );

    let assignment = CompoundAssignment::new(
        Var::new(lex("x ")),
        CompoundOp::PlusEqual(TokenReference::symbol("+= ").unwrap()),
        Expression::new(lex("1")),
    );
    let mut numbering = Numbering { tokens: Vec::new(), nodes: Vec::new() };
    assignment.rewrite(&mut numbering);
    assert_eq!(numbering.tokens, ["x ", "+= ", "1"]);
    assert_eq!(numbering.nodes, ["Var", "CompoundOp", "Expression", "CompoundAssignment"]);
}
