//! Symbols: the keywords and punctuation marks of the language.

use crate::text::str_eq;
use crate::tokenizer::is_whitespace;
use vstd::prelude::*;

verus! {

/// A keyword or a punctuation mark: a token whose spelling is fixed.
#[derive(Clone, Copy, Debug, PartialEq, Eq, Structural)]
pub enum Symbol {
    /// `and`
    And,
    /// `break`
    Break,
    /// `do`
    Do,
    /// `elseif`
    ElseIf,
    /// `else`
    Else,
    /// `end`
    End,
    /// `false`
    False,
    /// `for`
    For,
    /// `function`
    Function,
    /// `if`
    If,
    /// `in`
    In,
    /// `local`
    Local,
    /// `nil`
    Nil,
    /// `not`
    Not,
    /// `or`
    Or,
    /// `repeat`
    Repeat,
    /// `return`
    Return,
    /// `then`
    Then,
    /// `true`
    True,
    /// `until`
    Until,
    /// `while`
    While,
    /// `+=`
    PlusEqual,
    /// `-=`
    MinusEqual,
    /// `*=`
    StarEqual,
    /// `/=`
    SlashEqual,
    /// `%=`
    PercentEqual,
    /// `^=`
    CaretEqual,
    /// `..=`
    TwoDotsEqual,
    /// `&`
    Ampersand,
    /// `->`
    ThinArrow,
    /// `::`
    TwoColons,
    /// `^`
    Caret,
    /// `:`
    Colon,
    /// `,`
    Comma,
    /// `...`
    Ellipse,
    /// `..`
    TwoDots,
    /// `.`
    Dot,
    /// `==`
    TwoEqual,
    /// `=`
    Equal,
    /// `>=`
    GreaterThanEqual,
    /// `>`
    GreaterThan,
    /// `#`
    Hash,
    /// `{`
    LeftBrace,
    /// `[`
    LeftBracket,
    /// `(`
    LeftParen,
    /// `<=`
    LessThanEqual,
    /// `<`
    LessThan,
    /// `-`
    Minus,
    /// `%`
    Percent,
    /// `|`
    Pipe,
    /// `+`
    Plus,
    /// `?`
    QuestionMark,
    /// `}`
    RightBrace,
    /// `]`
    RightBracket,
    /// `)`
    RightParen,
    /// `;`
    Semicolon,
    /// `/`
    Slash,
    /// `*`
    Star,
    /// `~=`
    TildeEqual,
}

impl Symbol {
    /// The spelling of this symbol.
    pub open spec fn text(self) -> Seq<char> {
        match self {
            Symbol::And => "and"@,
            Symbol::Break => "break"@,
            Symbol::Do => "do"@,
            Symbol::ElseIf => "elseif"@,
            Symbol::Else => "else"@,
            Symbol::End => "end"@,
            Symbol::False => "false"@,
            Symbol::For => "for"@,
            Symbol::Function => "function"@,
            Symbol::If => "if"@,
            Symbol::In => "in"@,
            Symbol::Local => "local"@,
            Symbol::Nil => "nil"@,
            Symbol::Not => "not"@,
            Symbol::Or => "or"@,
            Symbol::Repeat => "repeat"@,
            Symbol::Return => "return"@,
            Symbol::Then => "then"@,
            Symbol::True => "true"@,
            Symbol::Until => "until"@,
            Symbol::While => "while"@,
            Symbol::PlusEqual => "+="@,
            Symbol::MinusEqual => "-="@,
            Symbol::StarEqual => "*="@,
            Symbol::SlashEqual => "/="@,
            Symbol::PercentEqual => "%="@,
            Symbol::CaretEqual => "^="@,
            Symbol::TwoDotsEqual => "..="@,
            Symbol::Ampersand => "&"@,
            Symbol::ThinArrow => "->"@,
            Symbol::TwoColons => "::"@,
            Symbol::Caret => "^"@,
            Symbol::Colon => ":"@,
            Symbol::Comma => ","@,
            Symbol::Ellipse => "..."@,
            Symbol::TwoDots => ".."@,
            Symbol::Dot => "."@,
            Symbol::TwoEqual => "=="@,
            Symbol::Equal => "="@,
            Symbol::GreaterThanEqual => ">="@,
            Symbol::GreaterThan => ">"@,
            Symbol::Hash => "#"@,
            Symbol::LeftBrace => "{"@,
            Symbol::LeftBracket => "["@,
            Symbol::LeftParen => "("@,
            Symbol::LessThanEqual => "<="@,
            Symbol::LessThan => "<"@,
            Symbol::Minus => "-"@,
            Symbol::Percent => "%"@,
            Symbol::Pipe => "|"@,
            Symbol::Plus => "+"@,
            Symbol::QuestionMark => "?"@,
            Symbol::RightBrace => "}"@,
            Symbol::RightBracket => "]"@,
            Symbol::RightParen => ")"@,
            Symbol::Semicolon => ";"@,
            Symbol::Slash => "/"@,
            Symbol::Star => "*"@,
            Symbol::TildeEqual => "~="@,
        }
    }

    /// The symbol that is spelled `text`, if there is one.
    pub open spec fn from_text(text: Seq<char>) -> Option<Symbol> {
        if text == "and"@ {
            Some(Symbol::And)
        } else if text == "break"@ {
            Some(Symbol::Break)
        } else if text == "do"@ {
            Some(Symbol::Do)
        } else if text == "elseif"@ {
            Some(Symbol::ElseIf)
        } else if text == "else"@ {
            Some(Symbol::Else)
        } else if text == "end"@ {
            Some(Symbol::End)
        } else if text == "false"@ {
            Some(Symbol::False)
        } else if text == "for"@ {
            Some(Symbol::For)
        } else if text == "function"@ {
            Some(Symbol::Function)
        } else if text == "if"@ {
            Some(Symbol::If)
        } else if text == "in"@ {
            Some(Symbol::In)
        } else if text == "local"@ {
            Some(Symbol::Local)
        } else if text == "nil"@ {
            Some(Symbol::Nil)
        } else if text == "not"@ {
            Some(Symbol::Not)
        } else if text == "or"@ {
            Some(Symbol::Or)
        } else if text == "repeat"@ {
            Some(Symbol::Repeat)
        } else if text == "return"@ {
            Some(Symbol::Return)
        } else if text == "then"@ {
            Some(Symbol::Then)
        } else if text == "true"@ {
            Some(Symbol::True)
        } else if text == "until"@ {
            Some(Symbol::Until)
        } else if text == "while"@ {
            Some(Symbol::While)
        } else if text == "+="@ {
            Some(Symbol::PlusEqual)
        } else if text == "-="@ {
            Some(Symbol::MinusEqual)
        } else if text == "*="@ {
            Some(Symbol::StarEqual)
        } else if text == "/="@ {
            Some(Symbol::SlashEqual)
        } else if text == "%="@ {
            Some(Symbol::PercentEqual)
        } else if text == "^="@ {
            Some(Symbol::CaretEqual)
        } else if text == "..="@ {
            Some(Symbol::TwoDotsEqual)
        } else if text == "&"@ {
            Some(Symbol::Ampersand)
        } else if text == "->"@ {
            Some(Symbol::ThinArrow)
        } else if text == "::"@ {
            Some(Symbol::TwoColons)
        } else if text == "^"@ {
            Some(Symbol::Caret)
        } else if text == ":"@ {
            Some(Symbol::Colon)
        } else if text == ","@ {
            Some(Symbol::Comma)
        } else if text == "..."@ {
            Some(Symbol::Ellipse)
        } else if text == ".."@ {
            Some(Symbol::TwoDots)
        } else if text == "."@ {
            Some(Symbol::Dot)
        } else if text == "=="@ {
            Some(Symbol::TwoEqual)
        } else if text == "="@ {
            Some(Symbol::Equal)
        } else if text == ">="@ {
            Some(Symbol::GreaterThanEqual)
        } else if text == ">"@ {
            Some(Symbol::GreaterThan)
        } else if text == "#"@ {
            Some(Symbol::Hash)
        } else if text == "{"@ {
            Some(Symbol::LeftBrace)
        } else if text == "["@ {
            Some(Symbol::LeftBracket)
        } else if text == "("@ {
            Some(Symbol::LeftParen)
        } else if text == "<="@ {
            Some(Symbol::LessThanEqual)
        } else if text == "<"@ {
            Some(Symbol::LessThan)
        } else if text == "-"@ {
            Some(Symbol::Minus)
        } else if text == "%"@ {
            Some(Symbol::Percent)
        } else if text == "|"@ {
            Some(Symbol::Pipe)
        } else if text == "+"@ {
            Some(Symbol::Plus)
        } else if text == "?"@ {
            Some(Symbol::QuestionMark)
        } else if text == "}"@ {
            Some(Symbol::RightBrace)
        } else if text == "]"@ {
            Some(Symbol::RightBracket)
        } else if text == ")"@ {
            Some(Symbol::RightParen)
        } else if text == ";"@ {
            Some(Symbol::Semicolon)
        } else if text == "/"@ {
            Some(Symbol::Slash)
        } else if text == "*"@ {
            Some(Symbol::Star)
        } else if text == "~="@ {
            Some(Symbol::TildeEqual)
        } else {
            None
        }
    }

    /// The spelling of this symbol.
    pub fn as_str(&self) -> (s: &'static str)
        ensures
            s@ == self.text(),
    {
        match self {
            Symbol::And => "and",
            Symbol::Break => "break",
            Symbol::Do => "do",
            Symbol::ElseIf => "elseif",
            Symbol::Else => "else",
            Symbol::End => "end",
            Symbol::False => "false",
            Symbol::For => "for",
            Symbol::Function => "function",
            Symbol::If => "if",
            Symbol::In => "in",
            Symbol::Local => "local",
            Symbol::Nil => "nil",
            Symbol::Not => "not",
            Symbol::Or => "or",
            Symbol::Repeat => "repeat",
            Symbol::Return => "return",
            Symbol::Then => "then",
            Symbol::True => "true",
            Symbol::Until => "until",
            Symbol::While => "while",
            Symbol::PlusEqual => "+=",
            Symbol::MinusEqual => "-=",
            Symbol::StarEqual => "*=",
            Symbol::SlashEqual => "/=",
            Symbol::PercentEqual => "%=",
            Symbol::CaretEqual => "^=",
            Symbol::TwoDotsEqual => "..=",
            Symbol::Ampersand => "&",
            Symbol::ThinArrow => "->",
            Symbol::TwoColons => "::",
            Symbol::Caret => "^",
            Symbol::Colon => ":",
            Symbol::Comma => ",",
            Symbol::Ellipse => "...",
            Symbol::TwoDots => "..",
            Symbol::Dot => ".",
            Symbol::TwoEqual => "==",
            Symbol::Equal => "=",
            Symbol::GreaterThanEqual => ">=",
            Symbol::GreaterThan => ">",
            Symbol::Hash => "#",
            Symbol::LeftBrace => "{",
            Symbol::LeftBracket => "[",
            Symbol::LeftParen => "(",
            Symbol::LessThanEqual => "<=",
            Symbol::LessThan => "<",
            Symbol::Minus => "-",
            Symbol::Percent => "%",
            Symbol::Pipe => "|",
            Symbol::Plus => "+",
            Symbol::QuestionMark => "?",
            Symbol::RightBrace => "}",
            Symbol::RightBracket => "]",
            Symbol::RightParen => ")",
            Symbol::Semicolon => ";",
            Symbol::Slash => "/",
            Symbol::Star => "*",
            Symbol::TildeEqual => "~=",
        }
    }

    /// The symbol that is spelled `text`, if there is one.
    pub fn from_str(text: &str) -> (r: Option<Symbol>)
        ensures
            r == Symbol::from_text(text@),
    {
        if str_eq(text, "and") {
            Some(Symbol::And)
        } else if str_eq(text, "break") {
            Some(Symbol::Break)
        } else if str_eq(text, "do") {
            Some(Symbol::Do)
        } else if str_eq(text, "elseif") {
            Some(Symbol::ElseIf)
        } else if str_eq(text, "else") {
            Some(Symbol::Else)
        } else if str_eq(text, "end") {
            Some(Symbol::End)
        } else if str_eq(text, "false") {
            Some(Symbol::False)
        } else if str_eq(text, "for") {
            Some(Symbol::For)
        } else if str_eq(text, "function") {
            Some(Symbol::Function)
        } else if str_eq(text, "if") {
            Some(Symbol::If)
        } else if str_eq(text, "in") {
            Some(Symbol::In)
        } else if str_eq(text, "local") {
            Some(Symbol::Local)
        } else if str_eq(text, "nil") {
            Some(Symbol::Nil)
        } else if str_eq(text, "not") {
            Some(Symbol::Not)
        } else if str_eq(text, "or") {
            Some(Symbol::Or)
        } else if str_eq(text, "repeat") {
            Some(Symbol::Repeat)
        } else if str_eq(text, "return") {
            Some(Symbol::Return)
        } else if str_eq(text, "then") {
            Some(Symbol::Then)
        } else if str_eq(text, "true") {
            Some(Symbol::True)
        } else if str_eq(text, "until") {
            Some(Symbol::Until)
        } else if str_eq(text, "while") {
            Some(Symbol::While)
        } else if str_eq(text, "+=") {
            Some(Symbol::PlusEqual)
        } else if str_eq(text, "-=") {
            Some(Symbol::MinusEqual)
        } else if str_eq(text, "*=") {
            Some(Symbol::StarEqual)
        } else if str_eq(text, "/=") {
            Some(Symbol::SlashEqual)
        } else if str_eq(text, "%=") {
            Some(Symbol::PercentEqual)
        } else if str_eq(text, "^=") {
            Some(Symbol::CaretEqual)
        } else if str_eq(text, "..=") {
            Some(Symbol::TwoDotsEqual)
        } else if str_eq(text, "&") {
            Some(Symbol::Ampersand)
        } else if str_eq(text, "->") {
            Some(Symbol::ThinArrow)
        } else if str_eq(text, "::") {
            Some(Symbol::TwoColons)
        } else if str_eq(text, "^") {
            Some(Symbol::Caret)
        } else if str_eq(text, ":") {
            Some(Symbol::Colon)
        } else if str_eq(text, ",") {
            Some(Symbol::Comma)
        } else if str_eq(text, "...") {
            Some(Symbol::Ellipse)
        } else if str_eq(text, "..") {
            Some(Symbol::TwoDots)
        } else if str_eq(text, ".") {
            Some(Symbol::Dot)
        } else if str_eq(text, "==") {
            Some(Symbol::TwoEqual)
        } else if str_eq(text, "=") {
            Some(Symbol::Equal)
        } else if str_eq(text, ">=") {
            Some(Symbol::GreaterThanEqual)
        } else if str_eq(text, ">") {
            Some(Symbol::GreaterThan)
        } else if str_eq(text, "#") {
            Some(Symbol::Hash)
        } else if str_eq(text, "{") {
            Some(Symbol::LeftBrace)
        } else if str_eq(text, "[") {
            Some(Symbol::LeftBracket)
        } else if str_eq(text, "(") {
            Some(Symbol::LeftParen)
        } else if str_eq(text, "<=") {
            Some(Symbol::LessThanEqual)
        } else if str_eq(text, "<") {
            Some(Symbol::LessThan)
        } else if str_eq(text, "-") {
            Some(Symbol::Minus)
        } else if str_eq(text, "%") {
            Some(Symbol::Percent)
        } else if str_eq(text, "|") {
            Some(Symbol::Pipe)
        } else if str_eq(text, "+") {
            Some(Symbol::Plus)
        } else if str_eq(text, "?") {
            Some(Symbol::QuestionMark)
        } else if str_eq(text, "}") {
            Some(Symbol::RightBrace)
        } else if str_eq(text, "]") {
            Some(Symbol::RightBracket)
        } else if str_eq(text, ")") {
            Some(Symbol::RightParen)
        } else if str_eq(text, ";") {
            Some(Symbol::Semicolon)
        } else if str_eq(text, "/") {
            Some(Symbol::Slash)
        } else if str_eq(text, "*") {
            Some(Symbol::Star)
        } else if str_eq(text, "~=") {
            Some(Symbol::TildeEqual)
        } else {
            None
        }
    }
}

/// The length and the characters of every symbol's spelling.
pub proof fn lemma_symbol_texts()
    ensures
        Symbol::And.text().len() == 3
            && Symbol::And.text()[0] == 'a'
            && Symbol::And.text()[1] == 'n'
            && Symbol::And.text()[2] == 'd',
        Symbol::Break.text().len() == 5
            && Symbol::Break.text()[0] == 'b'
            && Symbol::Break.text()[1] == 'r'
            && Symbol::Break.text()[2] == 'e'
            && Symbol::Break.text()[3] == 'a'
            && Symbol::Break.text()[4] == 'k',
        Symbol::Do.text().len() == 2 && Symbol::Do.text()[0] == 'd' && Symbol::Do.text()[1] == 'o',
        Symbol::ElseIf.text().len() == 6
            && Symbol::ElseIf.text()[0] == 'e'
            && Symbol::ElseIf.text()[1] == 'l'
            && Symbol::ElseIf.text()[2] == 's'
            && Symbol::ElseIf.text()[3] == 'e'
            && Symbol::ElseIf.text()[4] == 'i'
            && Symbol::ElseIf.text()[5] == 'f',
        Symbol::Else.text().len() == 4
            && Symbol::Else.text()[0] == 'e'
            && Symbol::Else.text()[1] == 'l'
            && Symbol::Else.text()[2] == 's'
            && Symbol::Else.text()[3] == 'e',
        Symbol::End.text().len() == 3
            && Symbol::End.text()[0] == 'e'
            && Symbol::End.text()[1] == 'n'
            && Symbol::End.text()[2] == 'd',
        Symbol::False.text().len() == 5
            && Symbol::False.text()[0] == 'f'
            && Symbol::False.text()[1] == 'a'
            && Symbol::False.text()[2] == 'l'
            && Symbol::False.text()[3] == 's'
            && Symbol::False.text()[4] == 'e',
        Symbol::For.text().len() == 3
            && Symbol::For.text()[0] == 'f'
            && Symbol::For.text()[1] == 'o'
            && Symbol::For.text()[2] == 'r',
        Symbol::Function.text().len() == 8
            && Symbol::Function.text()[0] == 'f'
            && Symbol::Function.text()[1] == 'u'
            && Symbol::Function.text()[2] == 'n'
            && Symbol::Function.text()[3] == 'c'
            && Symbol::Function.text()[4] == 't'
            && Symbol::Function.text()[5] == 'i'
            && Symbol::Function.text()[6] == 'o'
            && Symbol::Function.text()[7] == 'n',
        Symbol::If.text().len() == 2 && Symbol::If.text()[0] == 'i' && Symbol::If.text()[1] == 'f',
        Symbol::In.text().len() == 2 && Symbol::In.text()[0] == 'i' && Symbol::In.text()[1] == 'n',
        Symbol::Local.text().len() == 5
            && Symbol::Local.text()[0] == 'l'
            && Symbol::Local.text()[1] == 'o'
            && Symbol::Local.text()[2] == 'c'
            && Symbol::Local.text()[3] == 'a'
            && Symbol::Local.text()[4] == 'l',
        Symbol::Nil.text().len() == 3
            && Symbol::Nil.text()[0] == 'n'
            && Symbol::Nil.text()[1] == 'i'
            && Symbol::Nil.text()[2] == 'l',
        Symbol::Not.text().len() == 3
            && Symbol::Not.text()[0] == 'n'
            && Symbol::Not.text()[1] == 'o'
            && Symbol::Not.text()[2] == 't',
        Symbol::Or.text().len() == 2 && Symbol::Or.text()[0] == 'o' && Symbol::Or.text()[1] == 'r',
        Symbol::Repeat.text().len() == 6
            && Symbol::Repeat.text()[0] == 'r'
            && Symbol::Repeat.text()[1] == 'e'
            && Symbol::Repeat.text()[2] == 'p'
            && Symbol::Repeat.text()[3] == 'e'
            && Symbol::Repeat.text()[4] == 'a'
            && Symbol::Repeat.text()[5] == 't',
        Symbol::Return.text().len() == 6
            && Symbol::Return.text()[0] == 'r'
            && Symbol::Return.text()[1] == 'e'
            && Symbol::Return.text()[2] == 't'
            && Symbol::Return.text()[3] == 'u'
            && Symbol::Return.text()[4] == 'r'
            && Symbol::Return.text()[5] == 'n',
        Symbol::Then.text().len() == 4
            && Symbol::Then.text()[0] == 't'
            && Symbol::Then.text()[1] == 'h'
            && Symbol::Then.text()[2] == 'e'
            && Symbol::Then.text()[3] == 'n',
        Symbol::True.text().len() == 4
            && Symbol::True.text()[0] == 't'
            && Symbol::True.text()[1] == 'r'
            && Symbol::True.text()[2] == 'u'
            && Symbol::True.text()[3] == 'e',
        Symbol::Until.text().len() == 5
            && Symbol::Until.text()[0] == 'u'
            && Symbol::Until.text()[1] == 'n'
            && Symbol::Until.text()[2] == 't'
            && Symbol::Until.text()[3] == 'i'
            && Symbol::Until.text()[4] == 'l',
        Symbol::While.text().len() == 5
            && Symbol::While.text()[0] == 'w'
            && Symbol::While.text()[1] == 'h'
            && Symbol::While.text()[2] == 'i'
            && Symbol::While.text()[3] == 'l'
            && Symbol::While.text()[4] == 'e',
        Symbol::PlusEqual.text().len() == 2
            && Symbol::PlusEqual.text()[0] == '+'
            && Symbol::PlusEqual.text()[1] == '=',
        Symbol::MinusEqual.text().len() == 2
            && Symbol::MinusEqual.text()[0] == '-'
            && Symbol::MinusEqual.text()[1] == '=',
        Symbol::StarEqual.text().len() == 2
            && Symbol::StarEqual.text()[0] == '*'
            && Symbol::StarEqual.text()[1] == '=',
        Symbol::SlashEqual.text().len() == 2
            && Symbol::SlashEqual.text()[0] == '/'
            && Symbol::SlashEqual.text()[1] == '=',
        Symbol::PercentEqual.text().len() == 2
            && Symbol::PercentEqual.text()[0] == '%'
            && Symbol::PercentEqual.text()[1] == '=',
        Symbol::CaretEqual.text().len() == 2
            && Symbol::CaretEqual.text()[0] == '^'
            && Symbol::CaretEqual.text()[1] == '=',
        Symbol::TwoDotsEqual.text().len() == 3
            && Symbol::TwoDotsEqual.text()[0] == '.'
            && Symbol::TwoDotsEqual.text()[1] == '.'
            && Symbol::TwoDotsEqual.text()[2] == '=',
        Symbol::Ampersand.text().len() == 1 && Symbol::Ampersand.text()[0] == '&',
        Symbol::ThinArrow.text().len() == 2
            && Symbol::ThinArrow.text()[0] == '-'
            && Symbol::ThinArrow.text()[1] == '>',
        Symbol::TwoColons.text().len() == 2
            && Symbol::TwoColons.text()[0] == ':'
            && Symbol::TwoColons.text()[1] == ':',
        Symbol::Caret.text().len() == 1 && Symbol::Caret.text()[0] == '^',
        Symbol::Colon.text().len() == 1 && Symbol::Colon.text()[0] == ':',
        Symbol::Comma.text().len() == 1 && Symbol::Comma.text()[0] == ',',
        Symbol::Ellipse.text().len() == 3
            && Symbol::Ellipse.text()[0] == '.'
            && Symbol::Ellipse.text()[1] == '.'
            && Symbol::Ellipse.text()[2] == '.',
        Symbol::TwoDots.text().len() == 2
            && Symbol::TwoDots.text()[0] == '.'
            && Symbol::TwoDots.text()[1] == '.',
        Symbol::Dot.text().len() == 1 && Symbol::Dot.text()[0] == '.',
        Symbol::TwoEqual.text().len() == 2
            && Symbol::TwoEqual.text()[0] == '='
            && Symbol::TwoEqual.text()[1] == '=',
        Symbol::Equal.text().len() == 1 && Symbol::Equal.text()[0] == '=',
        Symbol::GreaterThanEqual.text().len() == 2
            && Symbol::GreaterThanEqual.text()[0] == '>'
            && Symbol::GreaterThanEqual.text()[1] == '=',
        Symbol::GreaterThan.text().len() == 1 && Symbol::GreaterThan.text()[0] == '>',
        Symbol::Hash.text().len() == 1 && Symbol::Hash.text()[0] == '#',
        Symbol::LeftBrace.text().len() == 1 && Symbol::LeftBrace.text()[0] == '{',
        Symbol::LeftBracket.text().len() == 1 && Symbol::LeftBracket.text()[0] == '[',
        Symbol::LeftParen.text().len() == 1 && Symbol::LeftParen.text()[0] == '(',
        Symbol::LessThanEqual.text().len() == 2
            && Symbol::LessThanEqual.text()[0] == '<'
            && Symbol::LessThanEqual.text()[1] == '=',
        Symbol::LessThan.text().len() == 1 && Symbol::LessThan.text()[0] == '<',
        Symbol::Minus.text().len() == 1 && Symbol::Minus.text()[0] == '-',
        Symbol::Percent.text().len() == 1 && Symbol::Percent.text()[0] == '%',
        Symbol::Pipe.text().len() == 1 && Symbol::Pipe.text()[0] == '|',
        Symbol::Plus.text().len() == 1 && Symbol::Plus.text()[0] == '+',
        Symbol::QuestionMark.text().len() == 1 && Symbol::QuestionMark.text()[0] == '?',
        Symbol::RightBrace.text().len() == 1 && Symbol::RightBrace.text()[0] == '}',
        Symbol::RightBracket.text().len() == 1 && Symbol::RightBracket.text()[0] == ']',
        Symbol::RightParen.text().len() == 1 && Symbol::RightParen.text()[0] == ')',
        Symbol::Semicolon.text().len() == 1 && Symbol::Semicolon.text()[0] == ';',
        Symbol::Slash.text().len() == 1 && Symbol::Slash.text()[0] == '/',
        Symbol::Star.text().len() == 1 && Symbol::Star.text()[0] == '*',
        Symbol::TildeEqual.text().len() == 2
            && Symbol::TildeEqual.text()[0] == '~'
            && Symbol::TildeEqual.text()[1] == '=',
{
    reveal_strlit("and");
    reveal_strlit("break");
    reveal_strlit("do");
    reveal_strlit("elseif");
    reveal_strlit("else");
    reveal_strlit("end");
    reveal_strlit("false");
    reveal_strlit("for");
    reveal_strlit("function");
    reveal_strlit("if");
    reveal_strlit("in");
    reveal_strlit("local");
    reveal_strlit("nil");
    reveal_strlit("not");
    reveal_strlit("or");
    reveal_strlit("repeat");
    reveal_strlit("return");
    reveal_strlit("then");
    reveal_strlit("true");
    reveal_strlit("until");
    reveal_strlit("while");
    reveal_strlit("+=");
    reveal_strlit("-=");
    reveal_strlit("*=");
    reveal_strlit("/=");
    reveal_strlit("%=");
    reveal_strlit("^=");
    reveal_strlit("..=");
    reveal_strlit("&");
    reveal_strlit("->");
    reveal_strlit("::");
    reveal_strlit("^");
    reveal_strlit(":");
    reveal_strlit(",");
    reveal_strlit("...");
    reveal_strlit("..");
    reveal_strlit(".");
    reveal_strlit("==");
    reveal_strlit("=");
    reveal_strlit(">=");
    reveal_strlit(">");
    reveal_strlit("#");
    reveal_strlit("{");
    reveal_strlit("[");
    reveal_strlit("(");
    reveal_strlit("<=");
    reveal_strlit("<");
    reveal_strlit("-");
    reveal_strlit("%");
    reveal_strlit("|");
    reveal_strlit("+");
    reveal_strlit("?");
    reveal_strlit("}");
    reveal_strlit("]");
    reveal_strlit(")");
    reveal_strlit(";");
    reveal_strlit("/");
    reveal_strlit("*");
    reveal_strlit("~=");
}

/// A spelling is read back as the symbol it belongs to, and only a symbol's
/// own spelling is read as that symbol.
pub proof fn lemma_symbol_spelling(symbol: Symbol, text: Seq<char>)
    ensures
        Symbol::from_text(symbol.text()) == Some(symbol),
        Symbol::from_text(text) == Some(symbol) ==> text == symbol.text(),
{
    lemma_symbol_texts();
}

/// The spelling of a symbol is one word: it is not empty and holds no
/// whitespace.
pub proof fn lemma_symbol_is_word(symbol: Symbol)
    ensures
        symbol.text().len() > 0,
        forall|i: int| 0 <= i < symbol.text().len() ==> !is_whitespace(#[trigger] symbol.text()[i]),
{
    lemma_symbol_texts();
}

} // verus!
