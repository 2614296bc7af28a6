//! Tokens, and the whitespace and comments that travel with them.
//!
//! A [`TokenReference`] is one token of the program together with its trivia:
//! the whitespace and comments written before and after it. Rendering a token
//! reference writes all three back, which is what makes a tree lossless.

pub mod symbol;

use crate::text::{append_repeated, cow_eq, cow_owned, cow_str, repeated, str_eq};
pub use crate::tokenizer::symbol::Symbol;
use crate::tokenizer::symbol::{lemma_symbol_is_word, lemma_symbol_spelling};
use std::borrow::Cow;
use vstd::prelude::*;
use vstd::std_specs::cmp::PartialEqSpecImpl;
use vstd::string::{StrSliceExecFns, StringExecFns};

verus! {

/// A place in source text.
#[derive(Clone, Copy, Debug, PartialEq, Eq, Structural)]
pub struct Position {
    pub bytes: usize,
    pub line: usize,
    pub character: usize,
}

impl Position {
    /// The position with the given byte offset, line and column.
    pub fn new(bytes: usize, line: usize, character: usize) -> (p: Position)
        ensures
            p == (Position { bytes, line, character }),
    {
        Position { bytes, line, character }
    }

    /// How many bytes of the source come before this position.
    pub fn bytes(&self) -> (b: usize)
        ensures
            b == self.bytes,
    {
        self.bytes
    }

    /// The line this position is on.
    pub fn line(&self) -> (l: usize)
        ensures
            l == self.line,
    {
        self.line
    }

    /// The column of this position within its line.
    pub fn character(&self) -> (c: usize)
        ensures
            c == self.character,
    {
        self.character
    }
}

impl Default for Position {
    /// The position that tokens made outside of any source carry.
    fn default() -> (p: Position)
        ensures
            p == (Position { bytes: 0, line: 0, character: 0 }),
    {
        Position { bytes: 0, line: 0, character: 0 }
    }
}

/// The marks that a string literal is written between.
#[derive(Clone, Copy, Debug, PartialEq, Eq, Structural)]
pub enum StringLiteralQuoteType {
    /// Long brackets: `[[` and `]]`.
    Brackets,
    /// Double quotes.
    Double,
    /// Single quotes.
    Single,
}

/// What a token is, with the text that it does not get from its kind alone.
#[derive(Debug)]
pub enum TokenType<'a> {
    /// The end of the source. It has no text.
    Eof,
    /// A name, such as `foo`.
    Identifier {
        /// The name itself.
        identifier: Cow<'a, str>,
    },
    /// A comment in long brackets, such as `--[[ text ]]`.
    MultiLineComment {
        /// How many `=` stand between the brackets.
        blocks: usize,
        /// The text inside the brackets.
        comment: Cow<'a, str>,
    },
    /// A number, as it was written.
    Number {
        /// The digits and marks of the number.
        text: Cow<'a, str>,
    },
    /// A first line such as `#!/usr/bin/env lua`.
    Shebang {
        /// The whole line.
        line: Cow<'a, str>,
    },
    /// A comment that runs to the end of its line.
    SingleLineComment {
        /// The text after the two dashes.
        comment: Cow<'a, str>,
    },
    /// A string, such as `"hello"`.
    StringLiteral {
        /// The text between the marks.
        literal: Cow<'a, str>,
        /// For a string in long brackets, how many `=` stand between them.
        multi_line: Option<usize>,
        /// The marks around the string.
        quote_type: StringLiteralQuoteType,
    },
    /// A keyword or a punctuation mark.
    Symbol {
        /// Which one.
        symbol: Symbol,
    },
    /// Spaces, tabs and line ends.
    Whitespace {
        /// The characters, as they were written.
        characters: Cow<'a, str>,
    },
}

/// What a [`TokenType`] holds, with its text as plain characters.
pub enum TokenTypeView {
    Eof,
    Identifier { identifier: Seq<char> },
    MultiLineComment { blocks: usize, comment: Seq<char> },
    Number { text: Seq<char> },
    Shebang { line: Seq<char> },
    SingleLineComment { comment: Seq<char> },
    StringLiteral {
        literal: Seq<char>,
        multi_line: Option<usize>,
        quote_type: StringLiteralQuoteType,
    },
    Symbol { symbol: Symbol },
    Whitespace { characters: Seq<char> },
}

/// The text of something written in long brackets with `blocks` equal signs.
pub open spec fn long_bracketed(blocks: nat, inner: Seq<char>) -> Seq<char> {
    "["@ + repeated("="@, blocks) + "["@ + inner + "]"@ + repeated("="@, blocks) + "]"@
}

impl TokenTypeView {
    /// The source text of a token of this type.
    pub open spec fn rendered(self) -> Seq<char> {
        match self {
            TokenTypeView::Eof => Seq::empty(),
            TokenTypeView::Identifier { identifier } => identifier,
            TokenTypeView::MultiLineComment { blocks, comment } => "--"@ + long_bracketed(
                blocks as nat,
                comment,
            ),
            TokenTypeView::Number { text } => text,
            TokenTypeView::Shebang { line } => line,
            TokenTypeView::SingleLineComment { comment } => "--"@ + comment,
            TokenTypeView::StringLiteral { literal, multi_line, quote_type } => match multi_line {
                Some(blocks) => long_bracketed(blocks as nat, literal),
                None => match quote_type {
                    StringLiteralQuoteType::Brackets => long_bracketed(0, literal),
                    StringLiteralQuoteType::Double => "\""@ + literal + "\""@,
                    StringLiteralQuoteType::Single => "'"@ + literal + "'"@,
                },
            },
            TokenTypeView::Symbol { symbol } => symbol.text(),
            TokenTypeView::Whitespace { characters } => characters,
        }
    }

    /// Whether a token of this type is whitespace or a comment.
    pub open spec fn is_trivia(self) -> bool {
        self is Whitespace
            || self is SingleLineComment
            || self is MultiLineComment
            || self is Shebang
    }
}

/// Appends to `out` the text of something written in long brackets.
fn append_long_bracketed(out: &mut String, blocks: usize, inner: &str)
    ensures
        final(out)@ == old(out)@ + long_bracketed(blocks as nat, inner@),
{
    out.append("[");
    append_repeated(out, "=", blocks);
    out.append("[");
    out.append(inner);
    out.append("]");
    append_repeated(out, "=", blocks);
    out.append("]");
    assert(out@ =~= old(out)@ + long_bracketed(blocks as nat, inner@));
}

impl<'a> TokenType<'a> {
    /// What this token type holds, with its text as plain characters.
    pub open spec fn view(&self) -> TokenTypeView {
        match self {
            TokenType::Eof => TokenTypeView::Eof,
            TokenType::Identifier { identifier } => TokenTypeView::Identifier {
                identifier: identifier@,
            },
            TokenType::MultiLineComment { blocks, comment } => TokenTypeView::MultiLineComment {
                blocks: *blocks,
                comment: comment@,
            },
            TokenType::Number { text } => TokenTypeView::Number { text: text@ },
            TokenType::Shebang { line } => TokenTypeView::Shebang { line: line@ },
            TokenType::SingleLineComment { comment } => TokenTypeView::SingleLineComment {
                comment: comment@,
            },
            TokenType::StringLiteral { literal, multi_line, quote_type } => {
                TokenTypeView::StringLiteral {
                    literal: literal@,
                    multi_line: *multi_line,
                    quote_type: *quote_type,
                }
            },
            TokenType::Symbol { symbol } => TokenTypeView::Symbol { symbol: *symbol },
            TokenType::Whitespace { characters } => TokenTypeView::Whitespace {
                characters: characters@,
            },
        }
    }

    /// Whitespace made of `spaces` spaces.
    pub fn spaces(spaces: usize) -> (t: TokenType<'static>)
        ensures
            t@ == (TokenTypeView::Whitespace { characters: repeated(" "@, spaces as nat) }),
    {
        let mut characters = String::new();
        append_repeated(&mut characters, " ", spaces);
        assert(characters@ =~= repeated(" "@, spaces as nat));
        TokenType::Whitespace { characters: Cow::Owned(characters) }
    }

    /// Whitespace made of `tabs` tabs.
    pub fn tabs(tabs: usize) -> (t: TokenType<'static>)
        ensures
            t@ == (TokenTypeView::Whitespace { characters: repeated("\t"@, tabs as nat) }),
    {
        let mut characters = String::new();
        append_repeated(&mut characters, "\t", tabs);
        assert(characters@ =~= repeated("\t"@, tabs as nat));
        TokenType::Whitespace { characters: Cow::Owned(characters) }
    }

    /// Whether a token of this type is whitespace or a comment.
    pub fn is_trivia(&self) -> (b: bool)
        ensures
            b == self@.is_trivia(),
    {
        match self {
            TokenType::Whitespace { .. } => true,
            TokenType::SingleLineComment { .. } => true,
            TokenType::MultiLineComment { .. } => true,
            TokenType::Shebang { .. } => true,
            _ => false,
        }
    }

    /// Appends the source text of a token of this type to `out`.
    pub fn render_into(&self, out: &mut String)
        ensures
            final(out)@ == old(out)@ + self@.rendered(),
    {
        match self {
            TokenType::Eof => {
                assert(out@ =~= old(out)@ + self@.rendered());
            },
            TokenType::Identifier { identifier } => {
                out.append(cow_str(identifier));
            },
            TokenType::MultiLineComment { blocks, comment } => {
                out.append("--");
                append_long_bracketed(out, *blocks, cow_str(comment));
                assert(out@ =~= old(out)@ + self@.rendered());
            },
            TokenType::Number { text } => {
                out.append(cow_str(text));
            },
            TokenType::Shebang { line } => {
                out.append(cow_str(line));
            },
            TokenType::SingleLineComment { comment } => {
                out.append("--");
                out.append(cow_str(comment));
                assert(out@ =~= old(out)@ + self@.rendered());
            },
            TokenType::StringLiteral { literal, multi_line, quote_type } => {
                match multi_line {
                    Some(blocks) => {
                        append_long_bracketed(out, *blocks, cow_str(literal));
                    },
                    None => match quote_type {
                        StringLiteralQuoteType::Brackets => {
                            append_long_bracketed(out, 0, cow_str(literal));
                        },
                        StringLiteralQuoteType::Double => {
                            out.append("\"");
                            out.append(cow_str(literal));
                            out.append("\"");
                            assert(out@ =~= old(out)@ + self@.rendered());
                        },
                        StringLiteralQuoteType::Single => {
                            out.append("'");
                            out.append(cow_str(literal));
                            out.append("'");
                            assert(out@ =~= old(out)@ + self@.rendered());
                        },
                    },
                }
            },
            TokenType::Symbol { symbol } => {
                out.append(symbol.as_str());
            },
            TokenType::Whitespace { characters } => {
                out.append(cow_str(characters));
            },
        }
    }

    /// A copy of this token type that borrows nothing.
    pub fn owned(&self) -> (t: TokenType<'static>)
        ensures
            t@ == self@,
    {
        match self {
            TokenType::Eof => TokenType::Eof,
            TokenType::Identifier { identifier } => TokenType::Identifier {
                identifier: cow_owned(identifier),
            },
            TokenType::MultiLineComment { blocks, comment } => TokenType::MultiLineComment {
                blocks: *blocks,
                comment: cow_owned(comment),
            },
            TokenType::Number { text } => TokenType::Number { text: cow_owned(text) },
            TokenType::Shebang { line } => TokenType::Shebang { line: cow_owned(line) },
            TokenType::SingleLineComment { comment } => TokenType::SingleLineComment {
                comment: cow_owned(comment),
            },
            TokenType::StringLiteral { literal, multi_line, quote_type } => {
                TokenType::StringLiteral {
                    literal: cow_owned(literal),
                    multi_line: *multi_line,
                    quote_type: *quote_type,
                }
            },
            TokenType::Symbol { symbol } => TokenType::Symbol { symbol: *symbol },
            TokenType::Whitespace { characters } => TokenType::Whitespace {
                characters: cow_owned(characters),
            },
        }
    }
}

impl<'a> Clone for TokenType<'a> {
    /// A copy that holds the same kind and the same text.
    fn clone(&self) -> (t: Self)
        ensures
            t@ == self@,
    {
        self.owned()
    }
}

impl<'a> PartialEq for TokenType<'a> {
    /// Whether the two hold the same kind and the same text.
    fn eq(&self, other: &Self) -> (r: bool) {
        match (self, other) {
            (TokenType::Eof, TokenType::Eof) => true,
            (TokenType::Identifier { identifier: x }, TokenType::Identifier { identifier: y }) => {
                cow_eq(x, y)
            },
            (
                TokenType::MultiLineComment { blocks: m, comment: x },
                TokenType::MultiLineComment { blocks: n, comment: y },
            ) => *m == *n && cow_eq(x, y),
            (TokenType::Number { text: x }, TokenType::Number { text: y }) => cow_eq(x, y),
            (TokenType::Shebang { line: x }, TokenType::Shebang { line: y }) => cow_eq(x, y),
            (
                TokenType::SingleLineComment { comment: x },
                TokenType::SingleLineComment { comment: y },
            ) => cow_eq(x, y),
            (
                TokenType::StringLiteral { literal: x, multi_line: m, quote_type: p },
                TokenType::StringLiteral { literal: y, multi_line: n, quote_type: q },
            ) => {
                let same_blocks = match (m, n) {
                    (Some(j), Some(k)) => *j == *k,
                    (None, None) => true,
                    _ => false,
                };
                same_blocks && *p == *q && cow_eq(x, y)
            },
            (TokenType::Symbol { symbol: x }, TokenType::Symbol { symbol: y }) => *x == *y,
            (TokenType::Whitespace { characters: x }, TokenType::Whitespace { characters: y }) => {
                cow_eq(x, y)
            },
            _ => false,
        }
    }
}

impl<'a> PartialEqSpecImpl for TokenType<'a> {
    open spec fn obeys_eq_spec() -> bool {
        true
    }

    open spec fn eq_spec(&self, other: &Self) -> bool {
        self@ == other@
    }
}

/// One token: its type and where it stands in the source.
#[derive(Debug)]
pub struct Token<'a> {
    pub(crate) start_position: Position,
    pub(crate) end_position: Position,
    pub(crate) token_type: TokenType<'a>,
}

/// What a [`Token`] holds, with its text as plain characters.
pub struct TokenView {
    pub start_position: Position,
    pub end_position: Position,
    pub token_type: TokenTypeView,
}

/// The position of a token that was made outside of any source.
pub open spec fn origin() -> Position {
    Position { bytes: 0, line: 0, character: 0 }
}

impl TokenView {
    /// The source text of the token.
    pub open spec fn rendered(self) -> Seq<char> {
        self.token_type.rendered()
    }

    /// A token of the given type that was made outside of any source.
    pub open spec fn detached(token_type: TokenTypeView) -> TokenView {
        TokenView { start_position: origin(), end_position: origin(), token_type }
    }
}

/// The views of a run of tokens, in order.
pub open spec fn tokens_view<'a>(tokens: Seq<Token<'a>>) -> Seq<TokenView> {
    Seq::new(tokens.len(), |i: int| tokens[i]@)
}

/// The source text of a run of tokens: their texts, one after the other.
pub open spec fn tokens_rendered(tokens: Seq<TokenView>) -> Seq<char>
    decreases tokens.len(),
{
    if tokens.len() == 0 {
        Seq::empty()
    } else {
        tokens_rendered(tokens.drop_last()) + tokens.last().rendered()
    }
}

/// The text of a run of one token is that token's text.
pub proof fn lemma_tokens_rendered_one(token: TokenView)
    ensures
        tokens_rendered(seq![token]) == token.rendered(),
{
    assert(seq![token].drop_last() =~= Seq::<TokenView>::empty());
    assert(tokens_rendered(seq![token]) =~= tokens_rendered(seq![token].drop_last())
        + token.rendered());
}

impl<'a> Token<'a> {
    /// What this token holds, with its text as plain characters.
    pub open(crate) spec fn view(&self) -> TokenView {
        TokenView {
            start_position: self.start_position,
            end_position: self.end_position,
            token_type: self.token_type@,
        }
    }

    /// A token of the given type that stands nowhere in a source.
    pub fn new(token_type: TokenType<'a>) -> (t: Token<'a>)
        ensures
            t@ == TokenView::detached(token_type@),
    {
        Token { start_position: Position::default(), end_position: Position::default(), token_type }
    }

    /// A token of the given type that runs from `start_position` to `end_position`.
    pub fn positioned(
        start_position: Position,
        end_position: Position,
        token_type: TokenType<'a>,
    ) -> (t: Token<'a>)
        ensures
            t@ == (TokenView { start_position, end_position, token_type: token_type@ }),
    {
        Token { start_position, end_position, token_type }
    }

    /// Where the token begins.
    pub fn start_position(&self) -> (p: Position)
        ensures
            p == self@.start_position,
    {
        self.start_position
    }

    /// Where the token ends.
    pub fn end_position(&self) -> (p: Position)
        ensures
            p == self@.end_position,
    {
        self.end_position
    }

    /// What kind of token this is, with its text.
    pub fn token_type(&self) -> (t: &TokenType<'a>)
        ensures
            t@ == self@.token_type,
    {
        &self.token_type
    }

    /// Appends the source text of the token to `out`.
    pub fn render_into(&self, out: &mut String)
        ensures
            final(out)@ == old(out)@ + self@.rendered(),
    {
        self.token_type.render_into(out);
    }

    /// The source text of the token.
    pub fn render(&self) -> (s: String)
        ensures
            s@ == self@.rendered(),
    {
        let mut out = String::new();
        self.render_into(&mut out);
        assert(out@ =~= self@.rendered());
        out
    }

    /// A copy of this token that borrows nothing.
    pub fn owned(&self) -> (t: Token<'static>)
        ensures
            t@ == self@,
    {
        Token {
            start_position: self.start_position,
            end_position: self.end_position,
            token_type: self.token_type.owned(),
        }
    }
}

impl<'a> Clone for Token<'a> {
    /// A copy with the same type, text and positions.
    fn clone(&self) -> (t: Self)
        ensures
            t@ == self@,
    {
        self.owned()
    }
}

impl<'a> PartialEq for Token<'a> {
    /// Whether the two have the same type, text and positions.
    fn eq(&self, other: &Self) -> (r: bool) {
        self.start_position == other.start_position && self.end_position == other.end_position
            && self.token_type == other.token_type
    }
}

impl<'a> PartialEqSpecImpl for Token<'a> {
    open spec fn obeys_eq_spec() -> bool {
        true
    }

    open spec fn eq_spec(&self, other: &Self) -> bool {
        self@ == other@
    }
}

/// Appends the source text of a run of tokens to `out`.
pub fn render_tokens<'a>(tokens: &Vec<Token<'a>>, out: &mut String)
    ensures
        final(out)@ == old(out)@ + tokens_rendered(tokens_view(tokens@)),
{
    let ghost views = tokens_view(tokens@);
    let mut i: usize = 0;
    while i < tokens.len()
        invariant
            i <= tokens.len(),
            views == tokens_view(tokens@),
            out@ == old(out)@ + tokens_rendered(views.take(i as int)),
        decreases tokens.len() - i,
    {
        tokens[i].render_into(out);
        proof {
            let next = views.take(i + 1);
            assert(next.drop_last() =~= views.take(i as int));
            assert(out@ =~= old(out)@ + tokens_rendered(next));
        }
        i = i + 1;
    }
    assert(views.take(i as int) =~= views);
}

/// A copy of a run of tokens that borrows nothing.
pub fn owned_tokens<'a>(tokens: &Vec<Token<'a>>) -> (r: Vec<Token<'static>>)
    ensures
        tokens_view(r@) == tokens_view(tokens@),
{
    let mut r: Vec<Token<'static>> = Vec::new();
    let mut i: usize = 0;
    while i < tokens.len()
        invariant
            i <= tokens.len(),
            r.len() == i,
            forall|j: int| 0 <= j < i ==> r@[j]@ == tokens@[j]@,
        decreases tokens.len() - i,
    {
        r.push(tokens[i].owned());
        i = i + 1;
    }
    assert(tokens_view(r@) =~= tokens_view(tokens@));
    r
}

/// Whether two runs of tokens hold the same tokens in the same order.
pub fn tokens_eq<'a>(a: &Vec<Token<'a>>, b: &Vec<Token<'a>>) -> (r: bool)
    ensures
        r == (tokens_view(a@) == tokens_view(b@)),
{
    if a.len() != b.len() {
        assert(tokens_view(a@).len() != tokens_view(b@).len());
        return false;
    }
    let mut i: usize = 0;
    while i < a.len()
        invariant
            i <= a.len(),
            a.len() == b.len(),
            forall|j: int| 0 <= j < i ==> a@[j]@ == b@[j]@,
        decreases a.len() - i,
    {
        if a[i] != b[i] {
            assert(tokens_view(a@)[i as int] != tokens_view(b@)[i as int]);
            return false;
        }
        i = i + 1;
    }
    assert(tokens_view(a@) =~= tokens_view(b@));
    true
}

/// A token together with the whitespace and comments around it.
#[derive(Debug)]
pub struct TokenReference<'a> {
    pub(crate) leading_trivia: Vec<Token<'a>>,
    pub(crate) token: Token<'a>,
    pub(crate) trailing_trivia: Vec<Token<'a>>,
}

/// What a [`TokenReference`] holds, with its text as plain characters.
pub struct TokenReferenceView {
    pub leading_trivia: Seq<TokenView>,
    pub token: TokenView,
    pub trailing_trivia: Seq<TokenView>,
}

impl TokenReferenceView {
    /// The source text: the leading trivia, the token, the trailing trivia.
    pub open spec fn rendered(self) -> Seq<char> {
        tokens_rendered(self.leading_trivia) + self.token.rendered() + tokens_rendered(
            self.trailing_trivia,
        )
    }

    /// Where the token itself begins, its trivia left aside.
    pub open spec fn start_position(self) -> Position {
        self.token.start_position
    }

    /// Where the token itself ends, its trivia left aside.
    pub open spec fn end_position(self) -> Position {
        self.token.end_position
    }

    /// Whether the token is the given symbol.
    pub open spec fn is_symbol(self, symbol: Symbol) -> bool {
        self.token.token_type == (TokenTypeView::Symbol { symbol })
    }

    /// The token reference that stands for `symbol` with whitespace `leading`
    /// before it and whitespace `trailing` after it, made outside of any source.
    pub open spec fn synthesized(
        leading: Seq<char>,
        symbol: Symbol,
        trailing: Seq<char>,
    ) -> TokenReferenceView {
        TokenReferenceView {
            leading_trivia: seq![
                TokenView::detached(TokenTypeView::Whitespace { characters: leading }),
            ],
            token: TokenView::detached(TokenTypeView::Symbol { symbol }),
            trailing_trivia: seq![
                TokenView::detached(TokenTypeView::Whitespace { characters: trailing }),
            ],
        }
    }

    /// The token reference that stands for the word `name` followed by one
    /// space, made outside of any source.
    pub open spec fn word(name: Seq<char>) -> TokenReferenceView {
        TokenReferenceView {
            leading_trivia: Seq::empty(),
            token: TokenView::detached(TokenTypeView::Identifier { identifier: name }),
            trailing_trivia: seq![
                TokenView::detached(TokenTypeView::Whitespace { characters: " "@ }),
            ],
        }
    }
}

impl TokenReference<'static> {
    /// The word `name` followed by one space.
    pub fn word(name: &str) -> (token: TokenReference<'static>)
        ensures
            token@ == TokenReferenceView::word(name@),
    {
        let token = TokenReference {
            leading_trivia: Vec::new(),
            token: Token::new(TokenType::Identifier { identifier: Cow::Owned(name.to_owned()) }),
            trailing_trivia: vec![Token::new(TokenType::spaces(1))],
        };
        proof {
            reveal_with_fuel(repeated, 2);
            assert(repeated(" "@, 1) =~= " "@);
            assert(token@.leading_trivia =~= TokenReferenceView::word(name@).leading_trivia);
            assert(token@.trailing_trivia =~= TokenReferenceView::word(name@).trailing_trivia);
        }
        token
    }
}

impl<'a> TokenReference<'a> {
    /// What this token reference holds, with its text as plain characters.
    pub open(crate) spec fn view(&self) -> TokenReferenceView {
        TokenReferenceView {
            leading_trivia: tokens_view(self.leading_trivia@),
            token: self.token@,
            trailing_trivia: tokens_view(self.trailing_trivia@),
        }
    }

    /// A token with the given trivia before and after it.
    pub fn new(
        leading_trivia: Vec<Token<'a>>,
        token: Token<'a>,
        trailing_trivia: Vec<Token<'a>>,
    ) -> (t: TokenReference<'a>)
        ensures
            t@ == (TokenReferenceView {
                leading_trivia: tokens_view(leading_trivia@),
                token: token@,
                trailing_trivia: tokens_view(trailing_trivia@),
            }),
    {
        TokenReference { leading_trivia, token, trailing_trivia }
    }

    /// The whitespace and comments before the token.
    pub fn leading_trivia(&self) -> (t: &Vec<Token<'a>>)
        ensures
            tokens_view(t@) == self@.leading_trivia,
    {
        &self.leading_trivia
    }

    /// The token itself.
    pub fn token(&self) -> (t: &Token<'a>)
        ensures
            t@ == self@.token,
    {
        &self.token
    }

    /// The whitespace and comments after the token.
    pub fn trailing_trivia(&self) -> (t: &Vec<Token<'a>>)
        ensures
            tokens_view(t@) == self@.trailing_trivia,
    {
        &self.trailing_trivia
    }

    /// The same trivia around another token.
    pub fn with_token(self, token: Token<'a>) -> (t: TokenReference<'a>)
        ensures
            t@ == (TokenReferenceView { token: token@, ..self@ }),
    {
        TokenReference { token, ..self }
    }

    /// Where the token itself begins, its trivia left aside.
    pub fn start_position(&self) -> (p: Position)
        ensures
            p == self@.start_position(),
    {
        self.token.start_position
    }

    /// Where the token itself ends, its trivia left aside.
    pub fn end_position(&self) -> (p: Position)
        ensures
            p == self@.end_position(),
    {
        self.token.end_position
    }

    /// Appends the source text to `out`: the leading trivia, the token, the
    /// trailing trivia.
    pub fn render_into(&self, out: &mut String)
        ensures
            final(out)@ == old(out)@ + self@.rendered(),
    {
        render_tokens(&self.leading_trivia, out);
        self.token.render_into(out);
        render_tokens(&self.trailing_trivia, out);
        assert(out@ =~= old(out)@ + self@.rendered());
    }

    /// The source text: the leading trivia, the token, the trailing trivia.
    pub fn render(&self) -> (s: String)
        ensures
            s@ == self@.rendered(),
    {
        let mut out = String::new();
        self.render_into(&mut out);
        assert(out@ =~= self@.rendered());
        out
    }

    /// A copy of this token reference that borrows nothing.
    pub fn owned(&self) -> (t: TokenReference<'static>)
        ensures
            t@ == self@,
    {
        TokenReference {
            leading_trivia: owned_tokens(&self.leading_trivia),
            token: self.token.owned(),
            trailing_trivia: owned_tokens(&self.trailing_trivia),
        }
    }
}

impl<'a> Clone for TokenReference<'a> {
    /// A copy with the same token and the same trivia.
    fn clone(&self) -> (t: Self)
        ensures
            t@ == self@,
    {
        self.owned()
    }
}

impl<'a> PartialEq for TokenReference<'a> {
    /// Whether the two hold the same token and the same trivia.
    fn eq(&self, other: &Self) -> (r: bool) {
        tokens_eq(&self.leading_trivia, &other.leading_trivia) && self.token == other.token
            && tokens_eq(&self.trailing_trivia, &other.trailing_trivia)
    }
}

impl<'a> PartialEqSpecImpl for TokenReference<'a> {
    open spec fn obeys_eq_spec() -> bool {
        true
    }

    open spec fn eq_spec(&self, other: &Self) -> bool {
        self@ == other@
    }
}

/// The views of a run of token references, in order.
pub open spec fn token_references_view<'a>(tokens: Seq<TokenReference<'a>>) -> Seq<
    TokenReferenceView,
> {
    Seq::new(tokens.len(), |i: int| tokens[i]@)
}

/// The source text of a run of token references: their texts, one after the
/// other.
pub open spec fn token_references_rendered(tokens: Seq<TokenReferenceView>) -> Seq<char>
    decreases tokens.len(),
{
    if tokens.len() == 0 {
        Seq::empty()
    } else {
        token_references_rendered(tokens.drop_last()) + tokens.last().rendered()
    }
}

/// The text of a run of one token reference is that token reference's text.
pub proof fn lemma_token_references_rendered_one(token: TokenReferenceView)
    ensures
        token_references_rendered(seq![token]) == token.rendered(),
{
    assert(seq![token].drop_last() =~= Seq::<TokenReferenceView>::empty());
    assert(token_references_rendered(seq![token]) =~= token_references_rendered(
        seq![token].drop_last(),
    ) + token.rendered());
}

/// The text of two runs, one after the other, is the text of the first and
/// then the text of the second.
pub proof fn lemma_token_references_rendered_concat(
    first: Seq<TokenReferenceView>,
    second: Seq<TokenReferenceView>,
)
    ensures
        token_references_rendered(first + second) == token_references_rendered(first)
            + token_references_rendered(second),
    decreases second.len(),
{
    if second.len() == 0 {
        assert(first + second =~= first);
        assert(token_references_rendered(first + second) =~= token_references_rendered(first)
            + token_references_rendered(second));
    } else {
        lemma_token_references_rendered_concat(first, second.drop_last());
        assert((first + second).drop_last() =~= first + second.drop_last());
        assert((first + second).last() == second.last());
        assert(token_references_rendered(first + second) =~= token_references_rendered(first)
            + token_references_rendered(second));
    }
}

/// Appends the source text of a run of token references to `out`.
pub fn render_token_references<'a>(tokens: &Vec<TokenReference<'a>>, out: &mut String)
    ensures
        final(out)@ == old(out)@ + token_references_rendered(token_references_view(tokens@)),
{
    let ghost views = token_references_view(tokens@);
    let mut i: usize = 0;
    while i < tokens.len()
        invariant
            i <= tokens.len(),
            views == token_references_view(tokens@),
            out@ == old(out)@ + token_references_rendered(views.take(i as int)),
        decreases tokens.len() - i,
    {
        tokens[i].render_into(out);
        proof {
            let next = views.take(i + 1);
            assert(next.drop_last() =~= views.take(i as int));
            assert(out@ =~= old(out)@ + token_references_rendered(next));
        }
        i = i + 1;
    }
    assert(views.take(i as int) =~= views);
}

/// A copy of a run of token references that borrows nothing.
pub fn owned_token_references<'a>(tokens: &Vec<TokenReference<'a>>) -> (r: Vec<
    TokenReference<'static>,
>)
    ensures
        token_references_view(r@) == token_references_view(tokens@),
{
    let mut r: Vec<TokenReference<'static>> = Vec::new();
    let mut i: usize = 0;
    while i < tokens.len()
        invariant
            i <= tokens.len(),
            r.len() == i,
            forall|j: int| 0 <= j < i ==> r@[j]@ == tokens@[j]@,
        decreases tokens.len() - i,
    {
        r.push(tokens[i].owned());
        i = i + 1;
    }
    assert(token_references_view(r@) =~= token_references_view(tokens@));
    r
}

/// Whether two runs of token references hold the same ones in the same order.
pub fn token_references_eq<'a>(a: &Vec<TokenReference<'a>>, b: &Vec<TokenReference<'a>>) -> (r:
    bool)
    ensures
        r == (token_references_view(a@) == token_references_view(b@)),
{
    if a.len() != b.len() {
        assert(token_references_view(a@).len() != token_references_view(b@).len());
        return false;
    }
    let mut i: usize = 0;
    while i < a.len()
        invariant
            i <= a.len(),
            a.len() == b.len(),
            forall|j: int| 0 <= j < i ==> a@[j]@ == b@[j]@,
        decreases a.len() - i,
    {
        if a[i] != b[i] {
            assert(token_references_view(a@)[i as int] != token_references_view(b@)[i as int]);
            return false;
        }
        i = i + 1;
    }
    assert(token_references_view(a@) =~= token_references_view(b@));
    true
}

/// Why a text could not be read as one symbol.
#[derive(Debug)]
pub enum TokenizerErrorType {
    /// After the symbol and its whitespace came this character.
    UnexpectedToken(char),
    /// The word where the symbol should stand is no symbol.
    InvalidSymbol(String),
}

/// What a [`TokenizerErrorType`] holds, with its text as plain characters.
pub enum TokenizerErrorView {
    UnexpectedToken(char),
    InvalidSymbol(Seq<char>),
}

impl TokenizerErrorType {
    /// What this error holds, with its text as plain characters.
    pub open spec fn view(&self) -> TokenizerErrorView {
        match self {
            TokenizerErrorType::UnexpectedToken(c) => TokenizerErrorView::UnexpectedToken(*c),
            TokenizerErrorType::InvalidSymbol(word) => TokenizerErrorView::InvalidSymbol(word@),
        }
    }
}

impl PartialEq for TokenizerErrorType {
    /// Whether the two are the same error about the same text.
    fn eq(&self, other: &Self) -> (r: bool) {
        match (self, other) {
            (TokenizerErrorType::UnexpectedToken(a), TokenizerErrorType::UnexpectedToken(b)) => {
                *a == *b
            },
            (TokenizerErrorType::InvalidSymbol(a), TokenizerErrorType::InvalidSymbol(b)) => {
                str_eq(a.as_str(), b.as_str())
            },
            _ => false,
        }
    }
}

impl PartialEqSpecImpl for TokenizerErrorType {
    open spec fn obeys_eq_spec() -> bool {
        true
    }

    open spec fn eq_spec(&self, other: &Self) -> bool {
        self@ == other@
    }
}

/// Whether `c` is a space, a tab, a line feed, a form feed or a carriage return.
pub open spec fn is_whitespace(c: char) -> bool {
    c == ' ' || c == '\t' || c == '\n' || c == '\x0C' || c == '\r'
}

/// The first index at or after `from` at which `text` has no whitespace, or
/// its length if only whitespace follows.
pub open spec fn skip_whitespace(text: Seq<char>, from: int) -> int
    decreases text.len() - from,
{
    if 0 <= from < text.len() && is_whitespace(text[from]) {
        skip_whitespace(text, from + 1)
    } else {
        from
    }
}

/// The first index at or after `from` at which `text` has whitespace, or its
/// length if none follows.
pub open spec fn skip_word(text: Seq<char>, from: int) -> int
    decreases text.len() - from,
{
    if 0 <= from < text.len() && !is_whitespace(text[from]) {
        skip_word(text, from + 1)
    } else {
        from
    }
}

/// What reading `text` as one symbol gives: the symbol with the whitespace
/// before and after it, or the reason why `text` is not that.
pub open spec fn parse_symbol(text: Seq<char>) -> Result<TokenReferenceView, TokenizerErrorView> {
    let word_start = skip_whitespace(text, 0);
    let word_end = skip_word(text, word_start);
    let rest = skip_whitespace(text, word_end);
    let word = text.subrange(word_start, word_end);
    match Symbol::from_text(word) {
        None => Err(TokenizerErrorView::InvalidSymbol(word)),
        Some(symbol) => if rest < text.len() {
            Err(TokenizerErrorView::UnexpectedToken(text[rest]))
        } else {
            Ok(
                TokenReferenceView::synthesized(
                    text.subrange(0, word_start),
                    symbol,
                    text.subrange(word_end, text.len() as int),
                ),
            )
        },
    }
}

/// Skipping never goes back and never leaves the text.
pub proof fn lemma_skip_bounds(text: Seq<char>, from: int)
    requires
        0 <= from <= text.len(),
    ensures
        from <= skip_whitespace(text, from) <= text.len(),
        from <= skip_word(text, from) <= text.len(),
    decreases text.len() - from,
{
    if from < text.len() {
        lemma_skip_bounds(text, from + 1);
    }
}

/// Rendering what was read from a text gives the text back, so reading the
/// rendering gives the same token again.
pub proof fn lemma_symbol_round_trip(text: Seq<char>)
    ensures
        parse_symbol(text) matches Ok(token) ==> token.rendered() == text && parse_symbol(
            token.rendered(),
        ) == Ok::<TokenReferenceView, TokenizerErrorView>(token),
{
    if let Ok(token) = parse_symbol(text) {
        let word_start = skip_whitespace(text, 0);
        let word_end = skip_word(text, word_start);
        let word = text.subrange(word_start, word_end);
        lemma_skip_bounds(text, 0);
        lemma_skip_bounds(text, word_start);
        let symbol = Symbol::from_text(word)->Some_0;
        lemma_symbol_spelling(symbol, word);
        lemma_tokens_rendered_one(token.leading_trivia[0]);
        lemma_tokens_rendered_one(token.trailing_trivia[0]);
        assert(token.leading_trivia =~= seq![token.leading_trivia[0]]);
        assert(token.trailing_trivia =~= seq![token.trailing_trivia[0]]);
        assert(token.rendered() =~= text);
    }
}

/// Where skipping whitespace stops: after a stretch of nothing but whitespace,
/// at the first character that is none, or at the end.
pub proof fn lemma_skip_whitespace_stops(text: Seq<char>, from: int, to: int)
    requires
        0 <= from <= to <= text.len(),
        forall|i: int| from <= i < to ==> is_whitespace(#[trigger] text[i]),
        to == text.len() || !is_whitespace(text[to]),
    ensures
        skip_whitespace(text, from) == to,
    decreases to - from,
{
    if from < to {
        lemma_skip_whitespace_stops(text, from + 1, to);
    }
}

/// Where skipping a word stops: after a stretch without whitespace, at the
/// first whitespace, or at the end.
pub proof fn lemma_skip_word_stops(text: Seq<char>, from: int, to: int)
    requires
        0 <= from <= to <= text.len(),
        forall|i: int| from <= i < to ==> !is_whitespace(#[trigger] text[i]),
        to == text.len() || is_whitespace(text[to]),
    ensures
        skip_word(text, from) == to,
    decreases to - from,
{
    if from < to {
        lemma_skip_word_stops(text, from + 1, to);
    }
}

/// Whether `text` holds nothing but whitespace.
pub open spec fn all_whitespace(text: Seq<char>) -> bool {
    forall|i: int| 0 <= i < text.len() ==> is_whitespace(#[trigger] text[i])
}

/// A symbol written with whitespace before and after it is read as that symbol
/// with that whitespace.
pub proof fn lemma_symbol_parses(leading: Seq<char>, symbol: Symbol, trailing: Seq<char>)
    requires
        all_whitespace(leading),
        all_whitespace(trailing),
    ensures
        parse_symbol(leading + symbol.text() + trailing) == Ok::<
            TokenReferenceView,
            TokenizerErrorView,
        >(TokenReferenceView::synthesized(leading, symbol, trailing)),
{
    let text = leading + symbol.text() + trailing;
    let word_start = leading.len() as int;
    let word_end = word_start + symbol.text().len();
    lemma_symbol_is_word(symbol);
    assert forall|i: int| word_start <= i < word_end implies !is_whitespace(
        #[trigger] text[i],
    ) by {
        assert(text[i] == symbol.text()[i - word_start]);
    }
    assert forall|i: int| word_end <= i < text.len() implies is_whitespace(#[trigger] text[i]) by {
        assert(text[i] == trailing[i - word_end]);
    }
    assert forall|i: int| 0 <= i < word_start implies is_whitespace(#[trigger] text[i]) by {
        assert(text[i] == leading[i]);
    }
    lemma_skip_whitespace_stops(text, 0, word_start);
    lemma_skip_word_stops(text, word_start, word_end);
    lemma_skip_whitespace_stops(text, word_end, text.len() as int);
    assert(text.subrange(word_start, word_end) =~= symbol.text());
    assert(text.subrange(0, word_start) =~= leading);
    assert(text.subrange(word_end, text.len() as int) =~= trailing);
    lemma_symbol_spelling(symbol, symbol.text());
}

/// A symbol made with whitespace around it renders as the whitespace before
/// it, its spelling, and the whitespace after it.
pub proof fn lemma_synthesized_rendered(leading: Seq<char>, symbol: Symbol, trailing: Seq<char>)
    ensures
        TokenReferenceView::synthesized(leading, symbol, trailing).rendered() == leading
            + symbol.text() + trailing,
{
    let token = TokenReferenceView::synthesized(leading, symbol, trailing);
    lemma_tokens_rendered_one(token.leading_trivia[0]);
    lemma_tokens_rendered_one(token.trailing_trivia[0]);
    assert(token.leading_trivia =~= seq![token.leading_trivia[0]]);
    assert(token.trailing_trivia =~= seq![token.trailing_trivia[0]]);
}

fn char_is_whitespace(c: char) -> (b: bool)
    ensures
        b == is_whitespace(c),
{
    c == ' ' || c == '\t' || c == '\n' || c == '\x0C' || c == '\r'
}

fn scan_whitespace(text: &str, from: usize) -> (to: usize)
    requires
        from <= text@.len(),
    ensures
        to == skip_whitespace(text@, from as int),
        from <= to <= text@.len(),
{
    let n = text.unicode_len();
    let mut i: usize = from;
    while i < n && char_is_whitespace(text.get_char(i))
        invariant
            from <= i <= n,
            n == text@.len(),
            skip_whitespace(text@, from as int) == skip_whitespace(text@, i as int),
        decreases n - i,
    {
        i = i + 1;
    }
    i
}

fn scan_word(text: &str, from: usize) -> (to: usize)
    requires
        from <= text@.len(),
    ensures
        to == skip_word(text@, from as int),
        from <= to <= text@.len(),
{
    let n = text.unicode_len();
    let mut i: usize = from;
    while i < n && !char_is_whitespace(text.get_char(i))
        invariant
            from <= i <= n,
            n == text@.len(),
            skip_word(text@, from as int) == skip_word(text@, i as int),
        decreases n - i,
    {
        i = i + 1;
    }
    i
}

fn whitespace_token(characters: &str) -> (t: Token<'static>)
    ensures
        t@ == TokenView::detached(TokenTypeView::Whitespace { characters: characters@ }),
{
    Token::new(TokenType::Whitespace { characters: Cow::Owned(characters.to_owned()) })
}

impl TokenReference<'static> {
    /// Reads `text` as one symbol with whitespace around it: `" = "` is the
    /// symbol `=` with a space on either side. The whitespace before the symbol
    /// becomes one leading whitespace token and the whitespace after it one
    /// trailing whitespace token, either of which may be empty.
    pub fn symbol(text: &str) -> (r: Result<TokenReference<'static>, TokenizerErrorType>)
        ensures
            match r {
                Ok(token) => parse_symbol(text@) == Ok::<TokenReferenceView, TokenizerErrorView>(
                    token@,
                ),
                Err(error) => parse_symbol(text@) == Err::<TokenReferenceView, TokenizerErrorView>(
                    error@,
                ),
            },
    {
        let n = text.unicode_len();
        let word_start = scan_whitespace(text, 0);
        let word_end = scan_word(text, word_start);
        let rest = scan_whitespace(text, word_end);
        let word = text.substring_char(word_start, word_end);
        match Symbol::from_str(word) {
            None => Err(TokenizerErrorType::InvalidSymbol(word.to_owned())),
            Some(symbol) => {
                if rest < n {
                    Err(TokenizerErrorType::UnexpectedToken(text.get_char(rest)))
                } else {
                    let leading = whitespace_token(text.substring_char(0, word_start));
                    let trailing = whitespace_token(text.substring_char(word_end, n));
                    let token = TokenReference {
                        leading_trivia: vec![leading],
                        token: Token::new(TokenType::Symbol { symbol }),
                        trailing_trivia: vec![trailing],
                    };
                    proof {
                        let expected = TokenReferenceView::synthesized(
                            text@.subrange(0, word_start as int),
                            symbol,
                            text@.subrange(word_end as int, text@.len() as int),
                        );
                        assert(token@.leading_trivia =~= expected.leading_trivia);
                        assert(token@.trailing_trivia =~= expected.trailing_trivia);
                    }
                    Ok(token)
                }
            },
        }
    }
}

} // verus!
