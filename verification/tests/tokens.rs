use full_moon::tokenizer::{
    Position, StringLiteralQuoteType, Symbol, Token, TokenReference, TokenType,
    TokenizerErrorType,
};
use std::borrow::Cow;

fn token_text(token_type: TokenType<'_>) -> String {
    Token::new(token_type).render()
}

#[test]
fn symbol_reads_a_keyword_with_its_whitespace() {
    let symbol = TokenReference::symbol("\nreturn ").unwrap();
    assert_eq!(symbol.leading_trivia().len(), 1);
    assert_eq!(symbol.leading_trivia()[0].render(), "\n");
    assert!(matches!(
        symbol.token().token_type(),
        TokenType::Symbol { symbol: Symbol::Return }
    ));
    assert_eq!(symbol.trailing_trivia().len(), 1);
    assert_eq!(symbol.trailing_trivia()[0].render(), " ");
}

#[test]
fn symbol_without_whitespace_has_empty_trivia() {
    let symbol = TokenReference::symbol("::").unwrap();
    assert_eq!(symbol.leading_trivia().len(), 1);
    assert_eq!(symbol.leading_trivia()[0].render(), "");
    assert!(matches!(
        symbol.token().token_type(),
        TokenType::Symbol { symbol: Symbol::TwoColons }
    ));
    assert_eq!(symbol.trailing_trivia().len(), 1);
    assert_eq!(symbol.trailing_trivia()[0].render(), "");
    assert_eq!(symbol.render(), "::");
}

#[test]
fn symbol_refuses_a_second_word() {
    let error = TokenReference::symbol("isnt whitespace").unwrap_err();
    assert!(error == TokenizerErrorType::InvalidSymbol(String::from("isnt")));
    let error = TokenReference::symbol("= =").unwrap_err();
    assert!(error == TokenizerErrorType::UnexpectedToken('='));
    let error = TokenReference::symbol(" +=\t\n x ").unwrap_err();
    assert!(error == TokenizerErrorType::UnexpectedToken('x'));
}

#[test]
fn symbol_refuses_what_is_no_symbol() {
    let error = TokenReference::symbol(" notasymbol ").unwrap_err();
    assert!(error == TokenizerErrorType::InvalidSymbol(String::from("notasymbol")));
    let error = TokenReference::symbol("").unwrap_err();
    assert!(error == TokenizerErrorType::InvalidSymbol(String::new()));
    let error = TokenReference::symbol("   ").unwrap_err();
    assert!(error == TokenizerErrorType::InvalidSymbol(String::new()));
    let error = TokenReference::symbol("type ").unwrap_err();
    assert!(error == TokenizerErrorType::InvalidSymbol(String::from("type")));
    let error = TokenReference::symbol("=\u{e9}").unwrap_err();
    assert!(error == TokenizerErrorType::InvalidSymbol(String::from("=\u{e9}")));
}

#[test]
fn symbol_round_trips() {
    for text in [": ", "::", " = ", "<", ">", "\t..=\r\n", "  function", "...\u{c}", "~=", "-> "] {
        let token = TokenReference::symbol(text).unwrap();
        assert_eq!(token.render(), text);
        let again = TokenReference::symbol(&token.render()).unwrap();
        assert!(again == token);
    }
}

#[test]
fn every_symbol_is_read_back_from_its_spelling() {
    let all = [
        (Symbol::And, "and"),
        (Symbol::Break, "break"),
        (Symbol::Do, "do"),
        (Symbol::ElseIf, "elseif"),
        (Symbol::Else, "else"),
        (Symbol::End, "end"),
        (Symbol::False, "false"),
        (Symbol::For, "for"),
        (Symbol::Function, "function"),
        (Symbol::If, "if"),
        (Symbol::In, "in"),
        (Symbol::Local, "local"),
        (Symbol::Nil, "nil"),
        (Symbol::Not, "not"),
        (Symbol::Or, "or"),
        (Symbol::Repeat, "repeat"),
        (Symbol::Return, "return"),
        (Symbol::Then, "then"),
        (Symbol::True, "true"),
        (Symbol::Until, "until"),
        (Symbol::While, "while"),
        (Symbol::PlusEqual, "+="),
        (Symbol::MinusEqual, "-="),
        (Symbol::StarEqual, "*="),
        (Symbol::SlashEqual, "/="),
        (Symbol::PercentEqual, "%="),
        (Symbol::CaretEqual, "^="),
        (Symbol::TwoDotsEqual, "..="),
        (Symbol::Ampersand, "&"),
        (Symbol::ThinArrow, "->"),
        (Symbol::TwoColons, "::"),
        (Symbol::Caret, "^"),
        (Symbol::Colon, ":"),
        (Symbol::Comma, ","),
        (Symbol::Ellipse, "..."),
        (Symbol::TwoDots, ".."),
        (Symbol::Dot, "."),
        (Symbol::TwoEqual, "=="),
        (Symbol::Equal, "="),
        (Symbol::GreaterThanEqual, ">="),
        (Symbol::GreaterThan, ">"),
        (Symbol::Hash, "#"),
        (Symbol::LeftBrace, "{"),
        (Symbol::LeftBracket, "["),
        (Symbol::LeftParen, "("),
        (Symbol::LessThanEqual, "<="),
        (Symbol::LessThan, "<"),
        (Symbol::Minus, "-"),
        (Symbol::Percent, "%"),
        (Symbol::Pipe, "|"),
        (Symbol::Plus, "+"),
        (Symbol::QuestionMark, "?"),
        (Symbol::RightBrace, "}"),
        (Symbol::RightBracket, "]"),
        (Symbol::RightParen, ")"),
        (Symbol::Semicolon, ";"),
        (Symbol::Slash, "/"),
        (Symbol::Star, "*"),
        (Symbol::TildeEqual, "~="),
    ];
    for (symbol, text) in all {
        assert_eq!(symbol.as_str(), text);
        assert_eq!(Symbol::from_str(text), Some(symbol));
    }
    assert_eq!(Symbol::from_str("type"), None);
    assert_eq!(Symbol::from_str(""), None);
    assert_eq!(Symbol::from_str("=>"), None);
}

#[test]
fn token_types_render_as_they_are_written() {
    assert_eq!(token_text(TokenType::Eof), "");
    assert_eq!(token_text(TokenType::Identifier { identifier: Cow::Borrowed("foo") }), "foo");
    assert_eq!(
        token_text(TokenType::MultiLineComment { blocks: 0, comment: Cow::Borrowed(" hi ") }),
        "--[[ hi ]]"
    );
    assert_eq!(
        token_text(TokenType::MultiLineComment { blocks: 2, comment: Cow::Borrowed("x") }),
        "--[==[x]==]"
    );
    assert_eq!(token_text(TokenType::Number { text: Cow::Borrowed("0x1F") }), "0x1F");
    assert_eq!(
        token_text(TokenType::Shebang { line: Cow::Borrowed("#!/usr/bin/lua\n") }),
        "#!/usr/bin/lua\n"
    );
    assert_eq!(
        token_text(TokenType::SingleLineComment { comment: Cow::Borrowed(" note") }),
        "-- note"
    );
    assert_eq!(
        token_text(TokenType::StringLiteral {
            literal: Cow::Borrowed("hi"),
            multi_line: None,
            quote_type: StringLiteralQuoteType::Double,
        }),
        "\"hi\""
    );
    assert_eq!(
        token_text(TokenType::StringLiteral {
            literal: Cow::Borrowed("hi"),
            multi_line: None,
            quote_type: StringLiteralQuoteType::Single,
        }),
        "'hi'"
    );
    assert_eq!(
        token_text(TokenType::StringLiteral {
            literal: Cow::Borrowed("hi"),
            multi_line: Some(1),
            quote_type: StringLiteralQuoteType::Brackets,
        }),
        "[=[hi]=]"
    );
    assert_eq!(
        token_text(TokenType::StringLiteral {
            literal: Cow::Borrowed("hi"),
            multi_line: None,
            quote_type: StringLiteralQuoteType::Brackets,
        }),
        "[[hi]]"
    );
    assert_eq!(token_text(TokenType::Symbol { symbol: Symbol::ThinArrow }), "->");
    assert_eq!(token_text(TokenType::Whitespace { characters: Cow::Borrowed(" \t") }), " \t");
    assert_eq!(token_text(TokenType::spaces(3)), "   ");
    assert_eq!(token_text(TokenType::spaces(0)), "");
    assert_eq!(token_text(TokenType::tabs(2)), "\t\t");
}

#[test]
fn trivia_is_whitespace_and_comments() {
    assert!(TokenType::spaces(1).is_trivia());
    assert!(TokenType::SingleLineComment { comment: Cow::Borrowed("") }.is_trivia());
    assert!(TokenType::MultiLineComment { blocks: 0, comment: Cow::Borrowed("") }.is_trivia());
    assert!(TokenType::Shebang { line: Cow::Borrowed("#!") }.is_trivia());
    assert!(!TokenType::Eof.is_trivia());
    assert!(!TokenType::Symbol { symbol: Symbol::Dot }.is_trivia());
    assert!(!TokenType::Identifier { identifier: Cow::Borrowed("x") }.is_trivia());
}

#[test]
fn token_reference_renders_trivia_around_the_token() {
    let token = TokenReference::new(
        vec![
            Token::new(TokenType::SingleLineComment { comment: Cow::Borrowed(" above") }),
            Token::new(TokenType::Whitespace { characters: Cow::Borrowed("\n") }),
        ],
        Token::new(TokenType::Identifier { identifier: Cow::Borrowed("x") }),
        vec![Token::new(TokenType::spaces(2))],
    );
    assert_eq!(token.render(), "-- above\nx  ");
    let mut out = String::from(">");
    token.render_into(&mut out);
    assert_eq!(out, ">-- above\nx  ");
}

#[test]
fn word_is_a_name_and_one_space() {
    let word = TokenReference::word("export");
    assert_eq!(word.render(), "export ");
    assert!(word.leading_trivia().is_empty());
    assert!(matches!(
        word.token().token_type(),
        TokenType::Identifier { identifier } if identifier == "export"
    ));
    assert_eq!(word.trailing_trivia().len(), 1);
}

#[test]
fn positions_are_kept() {
    let start = Position::new(4, 1, 5);
    let end = Position::new(7, 1, 8);
    assert_eq!(start.bytes(), 4);
    assert_eq!(start.line(), 1);
    assert_eq!(start.character(), 5);
    let token = TokenReference::new(
        vec![Token::positioned(
            Position::new(3, 1, 4),
            Position::new(4, 1, 5),
            TokenType::spaces(1),
        )],
        Token::positioned(start, end, TokenType::Identifier { identifier: Cow::Borrowed("foo") }),
        Vec::new(),
    );
    assert_eq!(token.token().start_position(), start);
    assert_eq!(token.token().end_position(), end);
    assert_eq!(token.start_position(), start);
    assert_eq!(token.end_position(), end);
    let made = Token::new(TokenType::Eof);
    assert_eq!(made.start_position(), Position::default());
    assert_eq!(made.end_position(), Position::new(0, 0, 0));
}

#[test]
fn tokens_compare_by_what_they_hold() {
    let source = String::from("foo");
    let borrowed = TokenReference::new(
        Vec::new(),
        Token::new(TokenType::Identifier { identifier: Cow::Borrowed(&source) }),
        Vec::new(),
    );
    let owned = TokenReference::new(
        Vec::new(),
        Token::new(TokenType::Identifier { identifier: Cow::Owned(String::from("foo")) }),
        Vec::new(),
    );
    assert!(borrowed == owned);
    let spaced = TokenReference::new(
        Vec::new(),
        Token::new(TokenType::Identifier { identifier: Cow::Borrowed("foo") }),
        vec![Token::new(TokenType::spaces(1))],
    );
    assert!(borrowed != spaced);
    let number = TokenReference::new(
        Vec::new(),
        Token::new(TokenType::Number { text: Cow::Borrowed("foo") }),
        Vec::new(),
    );
    assert!(borrowed != number);
    let moved = TokenReference::new(
        Vec::new(),
        Token::positioned(
            Position::new(1, 1, 1),
            Position::new(4, 1, 4),
            TokenType::Identifier { identifier: Cow::Borrowed("foo") },
        ),
        Vec::new(),
    );
    assert!(borrowed != moved);
    assert!(
        TokenType::StringLiteral {
            literal: Cow::Borrowed("a"),
            multi_line: Some(1),
            quote_type: StringLiteralQuoteType::Brackets,
        } != TokenType::StringLiteral {
            literal: Cow::Borrowed("a"),
            multi_line: Some(2),
            quote_type: StringLiteralQuoteType::Brackets,
        }
    );
}

#[test]
fn owned_token_outlives_its_source() {
    let owned = {
        let source = String::from("  local");
        let token = TokenReference::new(
            vec![Token::new(TokenType::Whitespace { characters: Cow::Borrowed(&source[..2]) })],
            Token::new(TokenType::Identifier { identifier: Cow::Borrowed(&source[2..]) }),
            Vec::new(),
        );
        let owned = token.owned();
        assert!(owned == token);
        owned
    };
    assert_eq!(owned.render(), "  local");
}

#[test]
fn with_token_keeps_the_trivia() {
    let token = TokenReference::symbol(" = ").unwrap();
    let changed = token.with_token(Token::new(TokenType::Symbol { symbol: Symbol::TwoEqual }));
    assert_eq!(changed.render(), " == ");
}
