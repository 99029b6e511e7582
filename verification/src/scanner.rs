//! The scanner: source text to tokens.

use vstd::prelude::*;
use crate::text::{alphabetic, chars_of, is_digit, push_decimal, push_char, push_text, text_of, decimal};
use crate::token::{Token, TokenIdentity, TokenValue, TokenValueView, TokenView};

verus! {

/// Why scanning stopped. The position is that of the opening quote, or of
/// the offending character.
#[derive(Clone, Copy, Debug, PartialEq, Eq, Structural)]
pub enum ScanError {
    UnterminatedString { line: usize, column: usize },
    UnexpectedCharacter { line: usize, column: usize, character: char },
}

impl ScanError {
    /// The diagnostic text of the error.
    pub open spec fn text(self) -> Seq<char> {
        match self {
            ScanError::UnterminatedString { line, column } => "Unterminated string literal at line "@
                + decimal(line as nat) + ":"@ + decimal(column as nat),
            ScanError::UnexpectedCharacter { line, column, character } => (
            "Unexpected character at line "@ + decimal(line as nat) + ":"@ + decimal(
                column as nat,
            ) + ": "@).push(character),
        }
    }

    pub fn to_text(&self) -> (s: String)
        ensures
            s@ == self.text(),
    {
        match self {
            ScanError::UnterminatedString { line, column } => {
                let mut s = String::from_str("Unterminated string literal at line ");
                push_decimal(&mut s, *line);
                push_text(&mut s, ":");
                push_decimal(&mut s, *column);
                s
            },
            ScanError::UnexpectedCharacter { line, column, character } => {
                let mut s = String::from_str("Unexpected character at line ");
                push_decimal(&mut s, *line);
                push_text(&mut s, ":");
                push_decimal(&mut s, *column);
                push_text(&mut s, ": ");
                push_char(&mut s, *character);
                s
            },
        }
    }
}

/// The classes of characters that the scanner consumes in runs.
#[derive(Clone, Copy, Debug, PartialEq, Eq, Structural)]
pub enum CharClass {
    /// Space, carriage return, tab and line feed.
    Blank,
    /// ASCII decimal digits.
    Digit,
    /// What may follow the first character of a word: letters and `_`.
    Word,
    /// Anything up to the end of the line.
    CommentBody,
    /// Anything up to the closing quote.
    StringBody,
}

pub open spec fn in_class(class: CharClass, c: char) -> bool {
    match class {
        CharClass::Blank => c == ' ' || c == '\r' || c == '\t' || c == '\n',
        CharClass::Digit => is_digit(c),
        CharClass::Word => alphabetic(c) || c == '_',
        CharClass::CommentBody => c != '\n',
        CharClass::StringBody => c != '"',
    }
}

/// Where the longest run of `class` characters that starts at `from` ends.
pub open spec fn run_end(src: Seq<char>, from: int, class: CharClass) -> int
    decreases src.len() - from,
{
    if 0 <= from < src.len() && in_class(class, src[from]) {
        run_end(src, from + 1, class)
    } else {
        from
    }
}

/// The line of the character at offset `at`: one more than the number of
/// line feeds before it.
pub open spec fn line_at(src: Seq<char>, at: int) -> nat
    decreases at,
{
    if at <= 0 {
        1
    } else if src[at - 1] == '\n' {
        line_at(src, at - 1) + 1
    } else {
        line_at(src, at - 1)
    }
}

/// The column of the character at offset `at`: one more than the number of
/// characters between it and the start of its line.
pub open spec fn column_at(src: Seq<char>, at: int) -> nat
    decreases at,
{
    if at <= 0 {
        1
    } else if src[at - 1] == '\n' {
        1
    } else {
        column_at(src, at - 1) + 1
    }
}

/// The token that a word spells: a reserved word, or an identifier.
pub open spec fn word_token(word: Seq<char>) -> (TokenIdentity, TokenValueView) {
    if word == "and"@ {
        (TokenIdentity::And, TokenValueView::Nil)
    } else if word == "break"@ {
        (TokenIdentity::Break, TokenValueView::Nil)
    } else if word == "continue"@ {
        (TokenIdentity::Continue, TokenValueView::Nil)
    } else if word == "class"@ {
        (TokenIdentity::Class, TokenValueView::Nil)
    } else if word == "else"@ {
        (TokenIdentity::Else, TokenValueView::Nil)
    } else if word == "false"@ {
        (TokenIdentity::False, TokenValueView::Bool(false))
    } else if word == "for"@ {
        (TokenIdentity::For, TokenValueView::Nil)
    } else if word == "fun"@ {
        (TokenIdentity::Fun, TokenValueView::Nil)
    } else if word == "if"@ {
        (TokenIdentity::If, TokenValueView::Nil)
    } else if word == "nil"@ {
        (TokenIdentity::Nil, TokenValueView::Nil)
    } else if word == "or"@ {
        (TokenIdentity::Or, TokenValueView::Nil)
    } else if word == "print"@ {
        (TokenIdentity::Print, TokenValueView::Nil)
    } else if word == "return"@ {
        (TokenIdentity::Return, TokenValueView::Nil)
    } else if word == "super"@ {
        (TokenIdentity::Super, TokenValueView::String("super"@))
    } else if word == "this"@ {
        (TokenIdentity::This, TokenValueView::String("this"@))
    } else if word == "true"@ {
        (TokenIdentity::True, TokenValueView::Bool(true))
    } else if word == "var"@ {
        (TokenIdentity::Var, TokenValueView::Nil)
    } else if word == "while"@ {
        (TokenIdentity::While, TokenValueView::Nil)
    } else {
        (TokenIdentity::Identifier, TokenValueView::String(word))
    }
}

/// Where the numeral that starts at `at` ends: a run of digits, and a
/// fraction only where a dot is followed by at least one digit.
pub open spec fn number_end(src: Seq<char>, at: int) -> int {
    let whole = run_end(src, at + 1, CharClass::Digit);
    if whole + 1 < src.len() && src[whole] == '.' && is_digit(src[whole + 1]) {
        run_end(src, whole + 2, CharClass::Digit)
    } else {
        whole
    }
}

/// What stands at an offset that holds a character other than a blank.
pub enum Lexeme {
    /// A token that ends before `end`.
    Token { id: TokenIdentity, value: TokenValueView, end: int },
    /// A string without its closing quote.
    Unterminated,
    /// A character that starts no token.
    Unexpected,
}

pub open spec fn plain(id: TokenIdentity, end: int) -> Lexeme {
    Lexeme::Token { id, value: TokenValueView::Nil, end }
}

/// `two` where the character after `at` is `second`, else `one`.
pub open spec fn one_or_two(
    src: Seq<char>,
    at: int,
    second: char,
    one: TokenIdentity,
    two: TokenIdentity,
) -> Lexeme {
    if at + 1 < src.len() && src[at + 1] == second {
        plain(two, at + 2)
    } else {
        plain(one, at + 1)
    }
}

/// The lexeme that starts at `at`, for `0 <= at < src.len()`.
pub open spec fn lexeme_at(src: Seq<char>, at: int) -> Lexeme {
    let c = src[at];
    if c == '(' {
        plain(TokenIdentity::LeftParen, at + 1)
    } else if c == ')' {
        plain(TokenIdentity::RightParen, at + 1)
    } else if c == '{' {
        plain(TokenIdentity::LeftBrace, at + 1)
    } else if c == '}' {
        plain(TokenIdentity::RightBrace, at + 1)
    } else if c == ',' {
        plain(TokenIdentity::Comma, at + 1)
    } else if c == '.' {
        plain(TokenIdentity::Dot, at + 1)
    } else if c == '-' {
        plain(TokenIdentity::Minus, at + 1)
    } else if c == '+' {
        plain(TokenIdentity::Plus, at + 1)
    } else if c == ';' {
        plain(TokenIdentity::Semicolon, at + 1)
    } else if c == '*' {
        plain(TokenIdentity::Star, at + 1)
    } else if c == ':' {
        plain(TokenIdentity::Colon, at + 1)
    } else if c == '?' {
        plain(TokenIdentity::Question, at + 1)
    } else if c == '!' {
        one_or_two(src, at, '=', TokenIdentity::Bang, TokenIdentity::BangEqual)
    } else if c == '=' {
        one_or_two(src, at, '=', TokenIdentity::Equal, TokenIdentity::EqualEqual)
    } else if c == '<' {
        one_or_two(src, at, '=', TokenIdentity::Less, TokenIdentity::LessEqual)
    } else if c == '>' {
        one_or_two(src, at, '=', TokenIdentity::Greater, TokenIdentity::GreaterEqual)
    } else if c == '/' {
        if at + 1 < src.len() && src[at + 1] == '/' {
            let end = run_end(src, at + 2, CharClass::CommentBody);
            Lexeme::Token {
                id: TokenIdentity::Comment,
                value: TokenValueView::String(src.subrange(at + 2, end)),
                end,
            }
        } else {
            plain(TokenIdentity::Slash, at + 1)
        }
    } else if c == '"' {
        let close = run_end(src, at + 1, CharClass::StringBody);
        if close < src.len() {
            Lexeme::Token {
                id: TokenIdentity::String,
                value: TokenValueView::String(src.subrange(at + 1, close)),
                end: close + 1,
            }
        } else {
            Lexeme::Unterminated
        }
    } else if is_digit(c) {
        let end = number_end(src, at);
        Lexeme::Token {
            id: TokenIdentity::Number,
            value: TokenValueView::Number(src.subrange(at, end)),
            end,
        }
    } else if alphabetic(c) {
        let end = run_end(src, at + 1, CharClass::Word);
        let (id, value) = word_token(src.subrange(at, end));
        Lexeme::Token { id, value, end }
    } else {
        Lexeme::Unexpected
    }
}

/// One step of the scanner.
pub enum Step {
    /// The next token, and the offset behind it.
    Emit { token: TokenView, next: int },
    /// The error that ends the scan, and the offset where it was found.
    Fail { error: ScanError, at: int },
    /// Nothing is left: the end-of-input token was given out before.
    Done,
}

/// What the scanner yields next at offset `from`: blanks are skipped; at the
/// end of the text the end-of-input token comes once.
pub open spec fn next_step(src: Seq<char>, from: int, finished: bool) -> Step {
    let at = run_end(src, from, CharClass::Blank);
    let line = line_at(src, at);
    let column = column_at(src, at);
    if finished {
        Step::Done
    } else if at >= src.len() {
        Step::Emit {
            token: TokenView { id: TokenIdentity::Eof, value: TokenValueView::Nil, line, column },
            next: at,
        }
    } else {
        match lexeme_at(src, at) {
            Lexeme::Token { id, value, end } => Step::Emit {
                token: TokenView { id, value, line, column },
                next: end,
            },
            Lexeme::Unterminated => Step::Fail {
                error: ScanError::UnterminatedString {
                    line: line as usize,
                    column: column as usize,
                },
                at,
            },
            Lexeme::Unexpected => Step::Fail {
                error: ScanError::UnexpectedCharacter {
                    line: line as usize,
                    column: column as usize,
                    character: src[at],
                },
                at,
            },
        }
    }
}

/// A run never ends before it starts nor behind the text.
pub proof fn lemma_run_bounds(src: Seq<char>, from: int, class: CharClass)
    requires
        0 <= from <= src.len(),
    ensures
        from <= run_end(src, from, class) <= src.len(),
    decreases src.len() - from,
{
    if from < src.len() && in_class(class, src[from]) {
        lemma_run_bounds(src, from + 1, class);
    }
}

/// A token takes at least one character and ends within the text.
pub proof fn lemma_lexeme_advances(src: Seq<char>, at: int)
    requires
        0 <= at < src.len(),
    ensures
        lexeme_at(src, at) matches Lexeme::Token { end, .. } ==> at < end <= src.len(),
        lexeme_at(src, at) matches Lexeme::Token { id, .. } ==> id != TokenIdentity::Eof,
{
    lemma_run_bounds(src, at + 1, CharClass::Digit);
    lemma_run_bounds(src, at + 1, CharClass::Word);
    lemma_run_bounds(src, at + 1, CharClass::StringBody);
    let whole = run_end(src, at + 1, CharClass::Digit);
    if whole + 1 < src.len() {
        lemma_run_bounds(src, whole + 2, CharClass::Digit);
    }
    if at + 1 < src.len() {
        lemma_run_bounds(src, at + 2, CharClass::CommentBody);
    }
}

/// Lines and columns are at most one more than the offset.
pub proof fn lemma_position_bounds(src: Seq<char>, at: int)
    requires
        0 <= at,
    ensures
        1 <= line_at(src, at) <= at + 1,
        1 <= column_at(src, at) <= at + 1,
    decreases at,
{
    if at > 0 {
        lemma_position_bounds(src, at - 1);
    }
}

/// All the tokens from offset `from` on, the end-of-input token last; or the
/// first error.
pub open spec fn tokens_from(src: Seq<char>, from: int) -> Result<Seq<TokenView>, ScanError>
    decreases src.len() - from,
{
    if 0 <= from <= src.len() {
        match next_step(src, from, false) {
            Step::Emit { token, next } => if token.id == TokenIdentity::Eof {
                Ok(seq![token])
            } else {
                proof {
                    let at = run_end(src, from, CharClass::Blank);
                    lemma_run_bounds(src, from, CharClass::Blank);
                    lemma_lexeme_advances(src, at);
                }
                match tokens_from(src, next) {
                    Ok(rest) => Ok(seq![token] + rest),
                    Err(error) => Err(error),
                }
            },
            Step::Fail { error, .. } => Err(error),
            Step::Done => Ok(Seq::empty()),
        }
    } else {
        Ok(Seq::empty())
    }
}

/// Whether the end-of-input token ends the tokens and stands nowhere else.
pub open spec fn ends_once(tokens: Seq<TokenView>) -> bool {
    &&& tokens.len() > 0
    &&& tokens.last().id == TokenIdentity::Eof
    &&& forall|i: int| 0 <= i < tokens.len() - 1 ==> (#[trigger] tokens[i]).id != TokenIdentity::Eof
}

/// A scan that succeeds ends with the end-of-input token, which stands
/// nowhere else.
pub proof fn lemma_scan_ends_once(src: Seq<char>, from: int)
    requires
        0 <= from <= src.len(),
    ensures
        tokens_from(src, from) matches Ok(tokens) ==> ends_once(tokens),
    decreases src.len() - from,
{
    let at = run_end(src, from, CharClass::Blank);
    lemma_run_bounds(src, from, CharClass::Blank);
    if at < src.len() {
        lemma_lexeme_advances(src, at);
        match next_step(src, from, false) {
            Step::Emit { token, next } => {
                lemma_scan_ends_once(src, next);
                match tokens_from(src, next) {
                    Ok(rest) => {
                        let all = seq![token] + rest;
                        assert(all.last() == rest.last());
                        assert forall|i: int| 0 <= i < all.len() - 1 implies (#[trigger] all[i]).id
                            != TokenIdentity::Eof by {
                            if i > 0 {
                                assert(all[i] == rest[i - 1]);
                            }
                        }
                    },
                    Err(_) => {},
                }
            },
            _ => {},
        }
    }
}

/// The tokens of a whole source text.
pub open spec fn scan_spec(src: Seq<char>) -> Result<Seq<TokenView>, ScanError> {
    tokens_from(src, 0)
}

/// The contents of a token vector.
pub open spec fn token_views(tokens: Seq<Token>) -> Seq<TokenView> {
    tokens.map_values(|t: Token| t@)
}

/// What is left to scan: nothing once the scanner has finished.
pub open spec fn remaining(src: Seq<char>, from: int, finished: bool) -> Result<
    Seq<TokenView>,
    ScanError,
> {
    if finished {
        Ok(Seq::empty())
    } else {
        tokens_from(src, from)
    }
}

/// `tokens` in front of what `rest` holds.
pub open spec fn prepend(tokens: Seq<TokenView>, rest: Result<Seq<TokenView>, ScanError>) -> Result<
    Seq<TokenView>,
    ScanError,
> {
    match rest {
        Ok(more) => Ok(tokens + more),
        Err(error) => Err(error),
    }
}

fn classify(class: CharClass, c: char) -> (b: bool)
    ensures
        b == in_class(class, c),
{
    match class {
        CharClass::Blank => c == ' ' || c == '\r' || c == '\t' || c == '\n',
        CharClass::Digit => '0' <= c && c <= '9',
        CharClass::Word => c.is_alphabetic() || c == '_',
        CharClass::CommentBody => c != '\n',
        CharClass::StringBody => c != '"',
    }
}

fn scan_run(chars: &Vec<char>, from: usize, class: CharClass) -> (end: usize)
    requires
        from <= chars.len(),
    ensures
        end == run_end(chars@, from as int, class),
        from <= end <= chars.len(),
{
    let mut i: usize = from;
    while i < chars.len() && classify(class, chars[i])
        invariant
            from <= i <= chars.len(),
            run_end(chars@, from as int, class) == run_end(chars@, i as int, class),
        decreases chars.len() - i,
    {
        i += 1;
    }
    i
}

fn follows(chars: &Vec<char>, at: usize, second: char) -> (b: bool)
    requires
        at < chars.len(),
    ensures
        b == (at + 1 < chars.len() && chars@[at + 1] == second),
{
    at + 1 < chars.len() && chars[at + 1] == second
}

fn keyword(word: &String, spelled: &str) -> (b: bool)
    ensures
        b == (word@ == spelled@),
{
    let k = String::from_str(spelled);
    *word == k
}

fn word_value(word: String) -> (r: (TokenIdentity, TokenValue))
    ensures
        (r.0, r.1@) == word_token(word@),
{
    if keyword(&word, "and") {
        (TokenIdentity::And, TokenValue::Nil)
    } else if keyword(&word, "break") {
        (TokenIdentity::Break, TokenValue::Nil)
    } else if keyword(&word, "continue") {
        (TokenIdentity::Continue, TokenValue::Nil)
    } else if keyword(&word, "class") {
        (TokenIdentity::Class, TokenValue::Nil)
    } else if keyword(&word, "else") {
        (TokenIdentity::Else, TokenValue::Nil)
    } else if keyword(&word, "false") {
        (TokenIdentity::False, TokenValue::Bool(false))
    } else if keyword(&word, "for") {
        (TokenIdentity::For, TokenValue::Nil)
    } else if keyword(&word, "fun") {
        (TokenIdentity::Fun, TokenValue::Nil)
    } else if keyword(&word, "if") {
        (TokenIdentity::If, TokenValue::Nil)
    } else if keyword(&word, "nil") {
        (TokenIdentity::Nil, TokenValue::Nil)
    } else if keyword(&word, "or") {
        (TokenIdentity::Or, TokenValue::Nil)
    } else if keyword(&word, "print") {
        (TokenIdentity::Print, TokenValue::Nil)
    } else if keyword(&word, "return") {
        (TokenIdentity::Return, TokenValue::Nil)
    } else if keyword(&word, "super") {
        (TokenIdentity::Super, TokenValue::String(String::from_str("super")))
    } else if keyword(&word, "this") {
        (TokenIdentity::This, TokenValue::String(String::from_str("this")))
    } else if keyword(&word, "true") {
        (TokenIdentity::True, TokenValue::Bool(true))
    } else if keyword(&word, "var") {
        (TokenIdentity::Var, TokenValue::Nil)
    } else if keyword(&word, "while") {
        (TokenIdentity::While, TokenValue::Nil)
    } else {
        (TokenIdentity::Identifier, TokenValue::String(word))
    }
}

/// What the exec lexer found at an offset.
enum Found {
    Token { id: TokenIdentity, value: TokenValue, end: usize },
    Unterminated,
    Unexpected,
}

impl Found {
    spec fn lexeme(self) -> Lexeme {
        match self {
            Found::Token { id, value, end } => Lexeme::Token { id, value: value@, end: end as int },
            Found::Unterminated => Lexeme::Unterminated,
            Found::Unexpected => Lexeme::Unexpected,
        }
    }
}

fn single(id: TokenIdentity, at: usize) -> (f: Found)
    requires
        at < usize::MAX,
    ensures
        f.lexeme() == plain(id, at + 1),
{
    Found::Token { id, value: TokenValue::Nil, end: at + 1 }
}

fn double(chars: &Vec<char>, at: usize, second: char, one: TokenIdentity, two: TokenIdentity) -> (f:
    Found)
    requires
        at < chars.len(),
    ensures
        f.lexeme() == one_or_two(chars@, at as int, second, one, two),
{
    if follows(chars, at, second) {
        Found::Token { id: two, value: TokenValue::Nil, end: at + 2 }
    } else {
        Found::Token { id: one, value: TokenValue::Nil, end: at + 1 }
    }
}

fn lex(chars: &Vec<char>, at: usize) -> (f: Found)
    requires
        at < chars.len(),
    ensures
        f.lexeme() == lexeme_at(chars@, at as int),
{
    let c = chars[at];
    if c == '(' {
        single(TokenIdentity::LeftParen, at)
    } else if c == ')' {
        single(TokenIdentity::RightParen, at)
    } else if c == '{' {
        single(TokenIdentity::LeftBrace, at)
    } else if c == '}' {
        single(TokenIdentity::RightBrace, at)
    } else if c == ',' {
        single(TokenIdentity::Comma, at)
    } else if c == '.' {
        single(TokenIdentity::Dot, at)
    } else if c == '-' {
        single(TokenIdentity::Minus, at)
    } else if c == '+' {
        single(TokenIdentity::Plus, at)
    } else if c == ';' {
        single(TokenIdentity::Semicolon, at)
    } else if c == '*' {
        single(TokenIdentity::Star, at)
    } else if c == ':' {
        single(TokenIdentity::Colon, at)
    } else if c == '?' {
        single(TokenIdentity::Question, at)
    } else if c == '!' {
        double(chars, at, '=', TokenIdentity::Bang, TokenIdentity::BangEqual)
    } else if c == '=' {
        double(chars, at, '=', TokenIdentity::Equal, TokenIdentity::EqualEqual)
    } else if c == '<' {
        double(chars, at, '=', TokenIdentity::Less, TokenIdentity::LessEqual)
    } else if c == '>' {
        double(chars, at, '=', TokenIdentity::Greater, TokenIdentity::GreaterEqual)
    } else if c == '/' {
        if follows(chars, at, '/') {
            let end = scan_run(chars, at + 2, CharClass::CommentBody);
            Found::Token {
                id: TokenIdentity::Comment,
                value: TokenValue::String(text_of(chars, at + 2, end)),
                end,
            }
        } else {
            single(TokenIdentity::Slash, at)
        }
    } else if c == '"' {
        let close = scan_run(chars, at + 1, CharClass::StringBody);
        if close < chars.len() {
            Found::Token {
                id: TokenIdentity::String,
                value: TokenValue::String(text_of(chars, at + 1, close)),
                end: close + 1,
            }
        } else {
            Found::Unterminated
        }
    } else if '0' <= c && c <= '9' {
        let whole = scan_run(chars, at + 1, CharClass::Digit);
        let end = if whole < chars.len() && chars[whole] == '.' && whole + 1 < chars.len()
            && classify(CharClass::Digit, chars[whole + 1]) {
            scan_run(chars, whole + 2, CharClass::Digit)
        } else {
            whole
        };
        Found::Token {
            id: TokenIdentity::Number,
            value: TokenValue::Number(text_of(chars, at, end)),
            end,
        }
    } else if c.is_alphabetic() {
        let end = scan_run(chars, at + 1, CharClass::Word);
        let (id, value) = word_value(text_of(chars, at, end));
        Found::Token { id, value, end }
    } else {
        Found::Unexpected
    }
}

/// A scanner over one source text. It yields the tokens one by one, then
/// the end-of-input token, then nothing.
pub struct Scanner {
    chars: Vec<char>,
    position: usize,
    line: usize,
    column: usize,
    is_finish: bool,
}

impl Scanner {
    /// The scanner's line and column are those of its offset.
    pub closed spec fn wf(&self) -> bool {
        &&& self.chars.len() < usize::MAX
        &&& self.position <= self.chars.len()
        &&& self.line == line_at(self.chars@, self.position as int)
        &&& self.column == column_at(self.chars@, self.position as int)
    }

    /// The text being scanned.
    pub closed spec fn source(&self) -> Seq<char> {
        self.chars@
    }

    /// The offset of the next character to scan.
    pub closed spec fn offset(&self) -> int {
        self.position as int
    }

    /// Whether the end-of-input token, or an error, has been given out.
    pub closed spec fn finished(&self) -> bool {
        self.is_finish
    }

    pub fn new(source: &str) -> (s: Self)
        requires
            source@.len() < usize::MAX,
        ensures
            s.wf(),
            s.source() == source@,
            s.offset() == 0,
            !s.finished(),
    {
        Scanner { chars: chars_of(source), position: 0, line: 1, column: 1, is_finish: false }
    }

    fn advance_to(&mut self, target: usize)
        requires
            old(self).wf(),
            old(self).position <= target <= old(self).chars.len(),
        ensures
            final(self).wf(),
            final(self).chars == old(self).chars,
            final(self).is_finish == old(self).is_finish,
            final(self).position == target,
    {
        while self.position < target
            invariant
                self.wf(),
                self.chars == old(self).chars,
                self.is_finish == old(self).is_finish,
                self.position <= target <= self.chars.len(),
            decreases target - self.position,
        {
            proof {
                lemma_position_bounds(self.chars@, self.position as int);
            }
            if self.chars[self.position] == '\n' {
                self.line += 1;
                self.column = 1;
            } else {
                self.column += 1;
            }
            self.position += 1;
        }
    }

    /// The next token; `None` once the end-of-input token or an error has
    /// been given out.
    pub fn next_token(&mut self) -> (r: Option<Result<Token, ScanError>>)
        requires
            old(self).wf(),
        ensures
            final(self).wf(),
            final(self).source() == old(self).source(),
            old(self).offset() <= final(self).offset() <= old(self).source().len(),
            match next_step(old(self).source(), old(self).offset(), old(self).finished()) {
                Step::Done => r is None && final(self).offset() == old(self).offset()
                    && final(self).finished(),
                Step::Emit { token, next } => {
                    &&& r matches Some(Ok(t))
                    &&& t@ == token
                    &&& final(self).offset() == next
                    &&& final(self).finished() == (token.id == TokenIdentity::Eof)
                },
                Step::Fail { error, at } => {
                    &&& r == Some(Err::<Token, ScanError>(error))
                    &&& final(self).offset() == at
                    &&& final(self).finished()
                },
            },
    {
        if self.is_finish {
            return None;
        }
        let at = scan_run(&self.chars, self.position, CharClass::Blank);
        self.advance_to(at);
        let line = self.line;
        let column = self.column;
        if at >= self.chars.len() {
            self.is_finish = true;
            return Some(Ok(Token::new(TokenIdentity::Eof, TokenValue::Nil, line, column)));
        }
        proof {
            lemma_lexeme_advances(self.chars@, at as int);
        }
        match lex(&self.chars, at) {
            Found::Token { id, value, end } => {
                self.advance_to(end);
                Some(Ok(Token::new(id, value, line, column)))
            },
            Found::Unterminated => {
                self.is_finish = true;
                Some(Err(ScanError::UnterminatedString { line, column }))
            },
            Found::Unexpected => {
                self.is_finish = true;
                Some(Err(ScanError::UnexpectedCharacter { line, column, character: self.chars[at] }))
            },
        }
    }

    /// All the tokens that are left, the end-of-input token last; or the
    /// first error.
    pub fn tokens(&mut self) -> (r: Result<Vec<Token>, ScanError>)
        requires
            old(self).wf(),
        ensures
            final(self).wf(),
            final(self).source() == old(self).source(),
            final(self).finished(),
            match remaining(old(self).source(), old(self).offset(), old(self).finished()) {
                Ok(expected) => r matches Ok(tokens) && token_views(tokens@) == expected,
                Err(error) => r == Err::<Vec<Token>, ScanError>(error),
            },
    {
        let mut tokens: Vec<Token> = Vec::new();
        let ghost goal = remaining(self.source(), self.offset(), self.finished());
        assert(token_views(tokens@) =~= Seq::empty());
        loop
            invariant
                self.wf(),
                self.source() == old(self).source(),
                0 <= self.offset() <= self.source().len(),
                goal == remaining(old(self).source(), old(self).offset(), old(self).finished()),
                goal == prepend(
                    token_views(tokens@),
                    remaining(self.source(), self.offset(), self.finished()),
                ),
            ensures
                self.wf(),
                self.source() == old(self).source(),
                self.finished(),
                goal == prepend(token_views(tokens@), Ok(Seq::empty())),
            decreases self.source().len() - self.offset(), if self.finished() { 0nat } else { 1nat },
        {
            let ghost before = token_views(tokens@);
            let ghost from = self.offset();
            match self.next_token() {
                None => {
                    break ;
                },
                Some(Err(error)) => {
                    return Err(error);
                },
                Some(Ok(token)) => {
                    proof {
                        let at = run_end(self.source(), from, CharClass::Blank);
                        lemma_run_bounds(self.source(), from, CharClass::Blank);
                        if at < self.source().len() {
                            lemma_lexeme_advances(self.source(), at);
                        }
                    }
                    tokens.push(token);
                    proof {
                        assert(token_views(tokens@) =~= before.push(token@));
                        match tokens_from(self.source(), from) {
                            Ok(all) => {
                                if token@.id == TokenIdentity::Eof {
                                    assert(before + seq![token@] =~= before.push(token@)
                                        + Seq::empty());
                                } else {
                                    let rest = tokens_from(self.source(), self.offset())->Ok_0;
                                    assert(before + (seq![token@] + rest) =~= before.push(token@)
                                        + rest);
                                }
                            },
                            Err(_) => {},
                        }
                    }
                },
            }
        }
        assert(token_views(tokens@) + Seq::<TokenView>::empty() =~= token_views(tokens@));
        Ok(tokens)
    }
}

/// Scans a whole source text.
pub fn scan(source: &str) -> (r: Result<Vec<Token>, ScanError>)
    requires
        source@.len() < usize::MAX,
    ensures
        match scan_spec(source@) {
            Ok(expected) => r matches Ok(tokens) && token_views(tokens@) == expected,
            Err(error) => r == Err::<Vec<Token>, ScanError>(error),
        },
        r matches Ok(tokens) ==> tokens@.len() > 0 && tokens@.last().id == TokenIdentity::Eof,
{
    let mut scanner = Scanner::new(source);
    let r = scanner.tokens();
    proof {
        lemma_scan_ends_once(source@, 0);
        if r is Ok {
            assert(token_views(r->Ok_0@).last() == r->Ok_0@.last()@);
        }
    }
    r
}

} // verus!
