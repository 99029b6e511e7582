//! Tokens: what the scanner produces and the parser consumes.

use vstd::prelude::*;
use crate::text::push_text;

verus! {

/// The closed set of token kinds.
#[derive(Clone, Copy, Debug, PartialEq, Eq, Structural)]
pub enum TokenIdentity {
    // Single-character tokens.
    LeftParen,
    RightParen,
    LeftBrace,
    RightBrace,
    Colon,
    Comma,
    Dot,
    Minus,
    Plus,
    Semicolon,
    Slash,
    Star,
    Question,
    // One or two character tokens.
    Bang,
    BangEqual,
    Equal,
    EqualEqual,
    Greater,
    GreaterEqual,
    Less,
    LessEqual,
    // Literals.
    Comment,
    Identifier,
    String,
    Number,
    // Keywords.
    And,
    Break,
    Continue,
    Class,
    Else,
    False,
    Fun,
    For,
    If,
    Nil,
    Or,
    Print,
    Return,
    Super,
    This,
    True,
    Var,
    While,
    Eof,
}

/// The payload of a token. A number carries its numeral as written: digits,
/// optionally followed by a dot and more digits.
#[derive(Debug)]
pub enum TokenValue {
    Nil,
    Bool(bool),
    String(String),
    Number(String),
}

/// The mathematical content of a [`TokenValue`].
pub enum TokenValueView {
    Nil,
    Bool(bool),
    String(Seq<char>),
    Number(Seq<char>),
}

impl View for TokenValue {
    type V = TokenValueView;

    open spec fn view(&self) -> TokenValueView {
        match self {
            TokenValue::Nil => TokenValueView::Nil,
            TokenValue::Bool(b) => TokenValueView::Bool(*b),
            TokenValue::String(s) => TokenValueView::String(s@),
            TokenValue::Number(s) => TokenValueView::Number(s@),
        }
    }
}

impl TokenValueView {
    /// How the payload is written out.
    pub open spec fn text(self) -> Seq<char> {
        match self {
            TokenValueView::Nil => "nil"@,
            TokenValueView::Bool(b) => if b {
                "true"@
            } else {
                "false"@
            },
            TokenValueView::String(s) => s,
            TokenValueView::Number(s) => s,
        }
    }
}

impl Clone for TokenValue {
    fn clone(&self) -> (r: Self)
        ensures
            r == *self,
    {
        match self {
            TokenValue::Nil => TokenValue::Nil,
            TokenValue::Bool(b) => TokenValue::Bool(*b),
            TokenValue::String(s) => TokenValue::String(s.clone()),
            TokenValue::Number(s) => TokenValue::Number(s.clone()),
        }
    }
}

impl TokenValue {
    /// Whether two payloads have the same content.
    pub fn same(&self, other: &TokenValue) -> (b: bool)
        ensures
            b == (self@ == other@),
    {
        match (self, other) {
            (TokenValue::Nil, TokenValue::Nil) => true,
            (TokenValue::Bool(a), TokenValue::Bool(b)) => *a == *b,
            (TokenValue::String(a), TokenValue::String(b)) => *a == *b,
            (TokenValue::Number(a), TokenValue::Number(b)) => *a == *b,
            _ => false,
        }
    }

    /// The payload written out: `nil`, `true` or `false`, or the text itself.
    pub fn to_text(&self) -> (s: String)
        ensures
            s@ == self@.text(),
    {
        match self {
            TokenValue::Nil => String::from_str("nil"),
            TokenValue::Bool(b) => if *b {
                String::from_str("true")
            } else {
                String::from_str("false")
            },
            TokenValue::String(s) => s.clone(),
            TokenValue::Number(s) => s.clone(),
        }
    }
}

/// A token with the line and column of its first character.
#[derive(Debug)]
pub struct Token {
    pub id: TokenIdentity,
    pub value: TokenValue,
    pub line: usize,
    pub column: usize,
}

/// The mathematical content of a [`Token`].
pub struct TokenView {
    pub id: TokenIdentity,
    pub value: TokenValueView,
    pub line: nat,
    pub column: nat,
}

impl View for Token {
    type V = TokenView;

    open spec fn view(&self) -> TokenView {
        TokenView {
            id: self.id,
            value: self.value@,
            line: self.line as nat,
            column: self.column as nat,
        }
    }
}

impl Clone for Token {
    fn clone(&self) -> (r: Self)
        ensures
            r == *self,
    {
        Token { id: self.id, value: self.value.clone(), line: self.line, column: self.column }
    }
}

/// The fixed spelling of a token kind; for identifiers, strings and numbers
/// the spelling is the payload's.
pub open spec fn spelling(id: TokenIdentity, value: TokenValueView) -> Seq<char> {
    match id {
        TokenIdentity::LeftParen => "("@,
        TokenIdentity::RightParen => ")"@,
        TokenIdentity::LeftBrace => "{"@,
        TokenIdentity::RightBrace => "}"@,
        TokenIdentity::Colon => ":"@,
        TokenIdentity::Comma => ","@,
        TokenIdentity::Dot => "."@,
        TokenIdentity::Minus => "-"@,
        TokenIdentity::Plus => "+"@,
        TokenIdentity::Semicolon => ";"@,
        TokenIdentity::Slash => "/"@,
        TokenIdentity::Star => "*"@,
        TokenIdentity::Question => "?"@,
        TokenIdentity::Bang => "!"@,
        TokenIdentity::BangEqual => "!="@,
        TokenIdentity::Equal => "="@,
        TokenIdentity::EqualEqual => "=="@,
        TokenIdentity::Greater => ">"@,
        TokenIdentity::GreaterEqual => ">="@,
        TokenIdentity::Less => "<"@,
        TokenIdentity::LessEqual => "<="@,
        TokenIdentity::Comment => "// Comment"@,
        TokenIdentity::Identifier => value.text(),
        TokenIdentity::String => value.text(),
        TokenIdentity::Number => value.text(),
        TokenIdentity::And => "and"@,
        TokenIdentity::Break => "break"@,
        TokenIdentity::Continue => "continue"@,
        TokenIdentity::Class => "class"@,
        TokenIdentity::Else => "else"@,
        TokenIdentity::False => "false"@,
        TokenIdentity::Fun => "fun"@,
        TokenIdentity::For => "for"@,
        TokenIdentity::If => "if"@,
        TokenIdentity::Nil => "nil"@,
        TokenIdentity::Or => "or"@,
        TokenIdentity::Print => "print"@,
        TokenIdentity::Return => "return"@,
        TokenIdentity::Super => "super"@,
        TokenIdentity::This => "this"@,
        TokenIdentity::True => "true"@,
        TokenIdentity::Var => "var"@,
        TokenIdentity::While => "while"@,
        TokenIdentity::Eof => "eof"@,
    }
}

impl TokenView {
    /// How the token is written out in diagnostics.
    pub open spec fn text(self) -> Seq<char> {
        spelling(self.id, self.value)
    }
}

impl Token {
    pub fn new(id: TokenIdentity, value: TokenValue, line: usize, column: usize) -> (t: Self)
        ensures
            t == (Token { id, value, line, column }),
    {
        Token { id, value, line, column }
    }

    /// The token written out: its fixed spelling, or its payload for
    /// identifiers, strings and numbers.
    pub fn to_text(&self) -> (s: String)
        ensures
            s@ == self@.text(),
    {
        match self.id {
            TokenIdentity::LeftParen => String::from_str("("),
            TokenIdentity::RightParen => String::from_str(")"),
            TokenIdentity::LeftBrace => String::from_str("{"),
            TokenIdentity::RightBrace => String::from_str("}"),
            TokenIdentity::Colon => String::from_str(":"),
            TokenIdentity::Comma => String::from_str(","),
            TokenIdentity::Dot => String::from_str("."),
            TokenIdentity::Minus => String::from_str("-"),
            TokenIdentity::Plus => String::from_str("+"),
            TokenIdentity::Semicolon => String::from_str(";"),
            TokenIdentity::Slash => String::from_str("/"),
            TokenIdentity::Star => String::from_str("*"),
            TokenIdentity::Question => String::from_str("?"),
            TokenIdentity::Bang => String::from_str("!"),
            TokenIdentity::BangEqual => String::from_str("!="),
            TokenIdentity::Equal => String::from_str("="),
            TokenIdentity::EqualEqual => String::from_str("=="),
            TokenIdentity::Greater => String::from_str(">"),
            TokenIdentity::GreaterEqual => String::from_str(">="),
            TokenIdentity::Less => String::from_str("<"),
            TokenIdentity::LessEqual => String::from_str("<="),
            TokenIdentity::Comment => String::from_str("// Comment"),
            TokenIdentity::Identifier => self.value.to_text(),
            TokenIdentity::String => self.value.to_text(),
            TokenIdentity::Number => self.value.to_text(),
            TokenIdentity::And => String::from_str("and"),
            TokenIdentity::Break => String::from_str("break"),
            TokenIdentity::Continue => String::from_str("continue"),
            TokenIdentity::Class => String::from_str("class"),
            TokenIdentity::Else => String::from_str("else"),
            TokenIdentity::False => String::from_str("false"),
            TokenIdentity::Fun => String::from_str("fun"),
            TokenIdentity::For => String::from_str("for"),
            TokenIdentity::If => String::from_str("if"),
            TokenIdentity::Nil => String::from_str("nil"),
            TokenIdentity::Or => String::from_str("or"),
            TokenIdentity::Print => String::from_str("print"),
            TokenIdentity::Return => String::from_str("return"),
            TokenIdentity::Super => String::from_str("super"),
            TokenIdentity::This => String::from_str("this"),
            TokenIdentity::True => String::from_str("true"),
            TokenIdentity::Var => String::from_str("var"),
            TokenIdentity::While => String::from_str("while"),
            TokenIdentity::Eof => String::from_str("eof"),
        }
    }
}

/// The header of a diagnostic that points at `token`: the position, the
/// stage, and the token's spelling, or `end` at the end of input.
pub open spec fn diagnostic(stage: Seq<char>, token: TokenView, message: Seq<char>) -> Seq<char> {
    let head = "[line "@ + crate::text::decimal(token.line) + ":"@ + crate::text::decimal(
        token.column,
    ) + "] "@ + stage;
    if token.id == TokenIdentity::Eof {
        head + " error at end: "@ + message
    } else {
        head + " error at '"@ + token.text() + "': "@ + message
    }
}

/// Writes a diagnostic out, in the shape `[line L:C] <stage> error at ...`.
pub fn diagnostic_text(stage: &str, token: &Token, message: &String) -> (s: String)
    ensures
        s@ == diagnostic(stage@, token@, message@),
{
    let mut s = String::from_str("[line ");
    crate::text::push_decimal(&mut s, token.line);
    push_text(&mut s, ":");
    crate::text::push_decimal(&mut s, token.column);
    push_text(&mut s, "] ");
    push_text(&mut s, stage);
    if token.id == TokenIdentity::Eof {
        push_text(&mut s, " error at end: ");
    } else {
        push_text(&mut s, " error at '");
        let spelled = token.to_text();
        push_text(&mut s, spelled.as_str());
        push_text(&mut s, "': ");
    }
    push_text(&mut s, message.as_str());
    s
}

} // verus!
