//! Writing tokens out and scanning the text again gives the tokens back.

use vstd::prelude::*;
use crate::scanner::{
    in_class, lemma_lexeme_advances, lemma_run_bounds, lexeme_at, next_step, plain as bare,
    run_end, scan_spec, tokens_from, word_token, CharClass, Lexeme, ScanError,
};
use crate::text::{alphabetic, is_digit};
use crate::token::{spelling, TokenIdentity, TokenValueView, TokenView};

verus! {

/// The ASCII lower-case letters.
pub open spec fn is_lower(c: char) -> bool {
    'a' <= c && c <= 'z'
}

/// The characters that start a token other than a word or a number.
pub open spec fn is_mark(c: char) -> bool {
    c == '(' || c == ')' || c == '{' || c == '}' || c == ',' || c == '.' || c == '-' || c == '+'
        || c == ';' || c == '*' || c == ':' || c == '?' || c == '!' || c == '=' || c == '<' || c
        == '>' || c == '/' || c == '"'
}

/// What the law asks of the letters: the ASCII lower-case letters are
/// letters, and no letter is a digit, a blank, or a character that starts
/// another token.
pub open spec fn letters_are_plain() -> bool {
    &&& forall|c: char| is_lower(c) ==> #[trigger] alphabetic(c)
    &&& forall|c: char| #[trigger]
        alphabetic(c) ==> !is_digit(c) && !in_class(CharClass::Blank, c) && !is_mark(c)
}

/// A word: a letter, then letters and `_`.
pub open spec fn is_word(w: Seq<char>) -> bool {
    &&& w.len() > 0
    &&& alphabetic(w[0])
    &&& forall|i: int| 0 < i < w.len() ==> in_class(CharClass::Word, #[trigger] w[i])
}

/// A numeral whose whole part has `k` digits: digits, and a fraction of at
/// least one digit behind a dot, if any.
pub open spec fn is_numeral(n: Seq<char>, k: int) -> bool {
    &&& 0 < k <= n.len()
    &&& forall|i: int| 0 <= i < k ==> is_digit(#[trigger] n[i])
    &&& k < n.len() ==> {
        &&& n[k] == '.'
        &&& k + 1 < n.len()
        &&& forall|i: int| k < i < n.len() ==> is_digit(#[trigger] n[i])
    }
}

/// The payload that the scanner gives a token of a kind with a fixed
/// spelling.
pub open spec fn canonical(id: TokenIdentity) -> TokenValueView {
    match id {
        TokenIdentity::False => TokenValueView::Bool(false),
        TokenIdentity::True => TokenValueView::Bool(true),
        TokenIdentity::Super => TokenValueView::String("super"@),
        TokenIdentity::This => TokenValueView::String("this"@),
        _ => TokenValueView::Nil,
    }
}

/// The tokens that the law speaks of: no comments, strings or end-of-input
/// tokens; identifiers are words that are no reserved words; numbers are
/// numerals; every other token has the payload that the scanner gives it.
pub open spec fn round_trips(t: TokenView) -> bool {
    match t.id {
        TokenIdentity::Comment | TokenIdentity::String | TokenIdentity::Eof => false,
        TokenIdentity::Identifier => {
            &&& t.value matches TokenValueView::String(w)
            &&& is_word(w)
            &&& word_token(w).0 == TokenIdentity::Identifier
        },
        TokenIdentity::Number => {
            &&& t.value matches TokenValueView::Number(n)
            &&& exists|k: int| is_numeral(n, k)
        },
        _ => t.value == canonical(t.id),
    }
}

/// The tokens written out, with single spaces between them.
pub open spec fn rendered(ts: Seq<TokenView>) -> Seq<char>
    decreases ts.len(),
{
    if ts.len() == 0 {
        Seq::empty()
    } else if ts.len() == 1 {
        ts[0].text()
    } else {
        ts[0].text() + " "@ + rendered(ts.drop_first())
    }
}

/// `found` holds the tokens `ts`, whatever their positions, and then the
/// end-of-input token.
pub open spec fn same_tokens(found: Seq<TokenView>, ts: Seq<TokenView>) -> bool {
    &&& found.len() == ts.len() + 1
    &&& forall|i: int|
        0 <= i < ts.len() ==> (#[trigger] found[i]).id == ts[i].id && found[i].value
            == ts[i].value
    &&& found.last().id == TokenIdentity::Eof
}

/// A run ends where the first character outside the class stands.
pub proof fn lemma_run(src: Seq<char>, from: int, to: int, class: CharClass)
    requires
        0 <= from <= to <= src.len(),
        forall|i: int| from <= i < to ==> in_class(class, #[trigger] src[i]),
        to == src.len() || !in_class(class, src[to]),
    ensures
        run_end(src, from, class) == to,
    decreases to - from,
{
    if from < to {
        lemma_run(src, from + 1, to, class);
    }
}

/// `text` stands in `src` at `at`, and a space or the end of `src` follows.
pub open spec fn stands(src: Seq<char>, at: int, text: Seq<char>) -> bool {
    &&& 0 <= at
    &&& at + text.len() <= src.len()
    &&& src.subrange(at, at + text.len()) == text
    &&& at + text.len() == src.len() || src[at + text.len()] == ' '
}

/// The characters of a text that stands in `src` are those of `src`.
pub proof fn lemma_stands(src: Seq<char>, at: int, text: Seq<char>)
    requires
        stands(src, at, text),
    ensures
        forall|i: int| 0 <= i < text.len() ==> #[trigger] src[at + i] == text[i],
{
    assert forall|i: int| 0 <= i < text.len() implies #[trigger] src[at + i] == text[i] by {
        assert(src.subrange(at, at + text.len())[i] == src[at + i]);
    }
}

/// A word that stands in the text is scanned as the token that it spells.
pub proof fn lemma_word_lexeme(src: Seq<char>, at: int, w: Seq<char>)
    requires
        letters_are_plain(),
        is_word(w),
        stands(src, at, w),
    ensures
        lexeme_at(src, at) == (Lexeme::Token {
            id: word_token(w).0,
            value: word_token(w).1,
            end: at + w.len(),
        }),
{
    lemma_stands(src, at, w);
    assert(src[at + 0] == w[0]);
    let end = at + w.len();
    assert forall|i: int| at + 1 <= i < end implies in_class(CharClass::Word, #[trigger] src[i]) by {
        assert(src[at + (i - at)] == w[i - at]);
    }
    lemma_run(src, at + 1, end, CharClass::Word);
}

/// A numeral that stands in the text is scanned as a number.
pub proof fn lemma_number_lexeme(src: Seq<char>, at: int, n: Seq<char>, k: int)
    requires
        is_numeral(n, k),
        stands(src, at, n),
    ensures
        lexeme_at(src, at) == (Lexeme::Token {
            id: TokenIdentity::Number,
            value: TokenValueView::Number(n),
            end: at + n.len(),
        }),
{
    lemma_stands(src, at, n);
    assert(src[at + 0] == n[0]);
    let whole = at + k;
    assert forall|i: int| at + 1 <= i < whole implies in_class(CharClass::Digit, #[trigger] src[i]) by {
        assert(src[at + (i - at)] == n[i - at]);
    }
    if k < n.len() {
        assert(src[at + k] == n[k]);
        assert(src[at + (k + 1)] == n[k + 1]);
        lemma_run(src, at + 1, whole, CharClass::Digit);
        let end = at + n.len();
        assert forall|i: int| whole + 2 <= i < end implies in_class(
            CharClass::Digit,
            #[trigger] src[i],
        ) by {
            assert(src[at + (i - at)] == n[i - at]);
        }
        lemma_run(src, whole + 2, end, CharClass::Digit);
    } else {
        lemma_run(src, at + 1, whole, CharClass::Digit);
    }
}

/// The reserved words.
pub open spec fn is_keyword(id: TokenIdentity) -> bool {
    id == TokenIdentity::And || id == TokenIdentity::Break || id == TokenIdentity::Continue || id == TokenIdentity::Class || id == TokenIdentity::Else || id == TokenIdentity::False || id == TokenIdentity::For || id == TokenIdentity::Fun || id == TokenIdentity::If || id == TokenIdentity::Nil || id == TokenIdentity::Or || id == TokenIdentity::Print || id == TokenIdentity::Return || id == TokenIdentity::Super || id == TokenIdentity::This || id == TokenIdentity::True || id == TokenIdentity::Var || id == TokenIdentity::While
}

/// The kinds of tokens that are made of one or two marks.
pub open spec fn is_mark_kind(id: TokenIdentity) -> bool {
    id == TokenIdentity::LeftParen || id == TokenIdentity::RightParen || id == TokenIdentity::LeftBrace || id == TokenIdentity::RightBrace || id == TokenIdentity::Colon || id == TokenIdentity::Comma || id == TokenIdentity::Dot || id == TokenIdentity::Minus || id == TokenIdentity::Plus || id == TokenIdentity::Semicolon || id == TokenIdentity::Slash || id == TokenIdentity::Star || id == TokenIdentity::Question || id == TokenIdentity::Bang || id == TokenIdentity::BangEqual || id == TokenIdentity::Equal || id == TokenIdentity::EqualEqual || id == TokenIdentity::Greater || id == TokenIdentity::GreaterEqual || id == TokenIdentity::Less || id == TokenIdentity::LessEqual
}

/// Every reserved word is a word of lower-case letters that the scanner
/// reads as its kind.
pub proof fn lemma_keyword(id: TokenIdentity)
    requires
        is_keyword(id),
    ensures
        spelling(id, canonical(id)).len() > 0,
        forall|i: int|
            0 <= i < spelling(id, canonical(id)).len() ==> is_lower(
                #[trigger] spelling(id, canonical(id))[i],
            ),
        word_token(spelling(id, canonical(id))) == (id, canonical(id)),
{
    reveal_strlit("and");
    reveal_strlit("break");
    reveal_strlit("continue");
    reveal_strlit("class");
    reveal_strlit("else");
    reveal_strlit("false");
    reveal_strlit("for");
    reveal_strlit("fun");
    reveal_strlit("if");
    reveal_strlit("nil");
    reveal_strlit("or");
    reveal_strlit("print");
    reveal_strlit("return");
    reveal_strlit("super");
    reveal_strlit("this");
    reveal_strlit("true");
    reveal_strlit("var");
    reveal_strlit("while");
    if id == TokenIdentity::Break {
        assert("break"@.len() != "and"@.len());
    }
    if id == TokenIdentity::Continue {
        assert("continue"@.len() != "and"@.len());
        assert("continue"@.len() != "break"@.len());
    }
    if id == TokenIdentity::Class {
        assert("class"@.len() != "and"@.len());
        assert("class"@[0] != "break"@[0]);
        assert("class"@.len() != "continue"@.len());
    }
    if id == TokenIdentity::Else {
        assert("else"@.len() != "and"@.len());
        assert("else"@.len() != "break"@.len());
        assert("else"@.len() != "continue"@.len());
        assert("else"@.len() != "class"@.len());
    }
    if id == TokenIdentity::False {
        assert("false"@.len() != "and"@.len());
        assert("false"@[0] != "break"@[0]);
        assert("false"@.len() != "continue"@.len());
        assert("false"@[0] != "class"@[0]);
        assert("false"@.len() != "else"@.len());
    }
    if id == TokenIdentity::For {
        assert("for"@[0] != "and"@[0]);
        assert("for"@.len() != "break"@.len());
        assert("for"@.len() != "continue"@.len());
        assert("for"@.len() != "class"@.len());
        assert("for"@.len() != "else"@.len());
        assert("for"@.len() != "false"@.len());
    }
    if id == TokenIdentity::Fun {
        assert("fun"@[0] != "and"@[0]);
        assert("fun"@.len() != "break"@.len());
        assert("fun"@.len() != "continue"@.len());
        assert("fun"@.len() != "class"@.len());
        assert("fun"@.len() != "else"@.len());
        assert("fun"@.len() != "false"@.len());
        assert("fun"@[1] != "for"@[1]);
    }
    if id == TokenIdentity::If {
        assert("if"@.len() != "and"@.len());
        assert("if"@.len() != "break"@.len());
        assert("if"@.len() != "continue"@.len());
        assert("if"@.len() != "class"@.len());
        assert("if"@.len() != "else"@.len());
        assert("if"@.len() != "false"@.len());
        assert("if"@.len() != "for"@.len());
        assert("if"@.len() != "fun"@.len());
    }
    if id == TokenIdentity::Nil {
        assert("nil"@[0] != "and"@[0]);
        assert("nil"@.len() != "break"@.len());
        assert("nil"@.len() != "continue"@.len());
        assert("nil"@.len() != "class"@.len());
        assert("nil"@.len() != "else"@.len());
        assert("nil"@.len() != "false"@.len());
        assert("nil"@[0] != "for"@[0]);
        assert("nil"@[0] != "fun"@[0]);
        assert("nil"@.len() != "if"@.len());
    }
    if id == TokenIdentity::Or {
        assert("or"@.len() != "and"@.len());
        assert("or"@.len() != "break"@.len());
        assert("or"@.len() != "continue"@.len());
        assert("or"@.len() != "class"@.len());
        assert("or"@.len() != "else"@.len());
        assert("or"@.len() != "false"@.len());
        assert("or"@.len() != "for"@.len());
        assert("or"@.len() != "fun"@.len());
        assert("or"@[0] != "if"@[0]);
        assert("or"@.len() != "nil"@.len());
    }
    if id == TokenIdentity::Print {
        assert("print"@.len() != "and"@.len());
        assert("print"@[0] != "break"@[0]);
        assert("print"@.len() != "continue"@.len());
        assert("print"@[0] != "class"@[0]);
        assert("print"@.len() != "else"@.len());
        assert("print"@[0] != "false"@[0]);
        assert("print"@.len() != "for"@.len());
        assert("print"@.len() != "fun"@.len());
        assert("print"@.len() != "if"@.len());
        assert("print"@.len() != "nil"@.len());
        assert("print"@.len() != "or"@.len());
    }
    if id == TokenIdentity::Return {
        assert("return"@.len() != "and"@.len());
        assert("return"@.len() != "break"@.len());
        assert("return"@.len() != "continue"@.len());
        assert("return"@.len() != "class"@.len());
        assert("return"@.len() != "else"@.len());
        assert("return"@.len() != "false"@.len());
        assert("return"@.len() != "for"@.len());
        assert("return"@.len() != "fun"@.len());
        assert("return"@.len() != "if"@.len());
        assert("return"@.len() != "nil"@.len());
        assert("return"@.len() != "or"@.len());
        assert("return"@.len() != "print"@.len());
    }
    if id == TokenIdentity::Super {
        assert("super"@.len() != "and"@.len());
        assert("super"@[0] != "break"@[0]);
        assert("super"@.len() != "continue"@.len());
        assert("super"@[0] != "class"@[0]);
        assert("super"@.len() != "else"@.len());
        assert("super"@[0] != "false"@[0]);
        assert("super"@.len() != "for"@.len());
        assert("super"@.len() != "fun"@.len());
        assert("super"@.len() != "if"@.len());
        assert("super"@.len() != "nil"@.len());
        assert("super"@.len() != "or"@.len());
        assert("super"@[0] != "print"@[0]);
        assert("super"@.len() != "return"@.len());
    }
    if id == TokenIdentity::This {
        assert("this"@.len() != "and"@.len());
        assert("this"@.len() != "break"@.len());
        assert("this"@.len() != "continue"@.len());
        assert("this"@.len() != "class"@.len());
        assert("this"@[0] != "else"@[0]);
        assert("this"@.len() != "false"@.len());
        assert("this"@.len() != "for"@.len());
        assert("this"@.len() != "fun"@.len());
        assert("this"@.len() != "if"@.len());
        assert("this"@.len() != "nil"@.len());
        assert("this"@.len() != "or"@.len());
        assert("this"@.len() != "print"@.len());
        assert("this"@.len() != "return"@.len());
        assert("this"@.len() != "super"@.len());
    }
    if id == TokenIdentity::True {
        assert("true"@.len() != "and"@.len());
        assert("true"@.len() != "break"@.len());
        assert("true"@.len() != "continue"@.len());
        assert("true"@.len() != "class"@.len());
        assert("true"@[0] != "else"@[0]);
        assert("true"@.len() != "false"@.len());
        assert("true"@.len() != "for"@.len());
        assert("true"@.len() != "fun"@.len());
        assert("true"@.len() != "if"@.len());
        assert("true"@.len() != "nil"@.len());
        assert("true"@.len() != "or"@.len());
        assert("true"@.len() != "print"@.len());
        assert("true"@.len() != "return"@.len());
        assert("true"@.len() != "super"@.len());
        assert("true"@[1] != "this"@[1]);
    }
    if id == TokenIdentity::Var {
        assert("var"@[0] != "and"@[0]);
        assert("var"@.len() != "break"@.len());
        assert("var"@.len() != "continue"@.len());
        assert("var"@.len() != "class"@.len());
        assert("var"@.len() != "else"@.len());
        assert("var"@.len() != "false"@.len());
        assert("var"@[0] != "for"@[0]);
        assert("var"@[0] != "fun"@[0]);
        assert("var"@.len() != "if"@.len());
        assert("var"@[0] != "nil"@[0]);
        assert("var"@.len() != "or"@.len());
        assert("var"@.len() != "print"@.len());
        assert("var"@.len() != "return"@.len());
        assert("var"@.len() != "super"@.len());
        assert("var"@.len() != "this"@.len());
        assert("var"@.len() != "true"@.len());
    }
    if id == TokenIdentity::While {
        assert("while"@.len() != "and"@.len());
        assert("while"@[0] != "break"@[0]);
        assert("while"@.len() != "continue"@.len());
        assert("while"@[0] != "class"@[0]);
        assert("while"@.len() != "else"@.len());
        assert("while"@[0] != "false"@[0]);
        assert("while"@.len() != "for"@.len());
        assert("while"@.len() != "fun"@.len());
        assert("while"@.len() != "if"@.len());
        assert("while"@.len() != "nil"@.len());
        assert("while"@.len() != "or"@.len());
        assert("while"@[0] != "print"@[0]);
        assert("while"@.len() != "return"@.len());
        assert("while"@[0] != "super"@[0]);
        assert("while"@.len() != "this"@.len());
        assert("while"@.len() != "true"@.len());
        assert("while"@.len() != "var"@.len());
    }
}

/// A token of marks that stands in the text is scanned as its kind.
pub proof fn lemma_mark_lexeme(src: Seq<char>, at: int, id: TokenIdentity)
    requires
        is_mark_kind(id),
        stands(src, at, spelling(id, TokenValueView::Nil)),
    ensures
        lexeme_at(src, at) == bare(id, at + spelling(id, TokenValueView::Nil).len()),
        spelling(id, TokenValueView::Nil).len() > 0,
        !in_class(CharClass::Blank, spelling(id, TokenValueView::Nil)[0]),
{
    reveal_strlit("(");
    reveal_strlit(")");
    reveal_strlit("{");
    reveal_strlit("}");
    reveal_strlit(":");
    reveal_strlit(",");
    reveal_strlit(".");
    reveal_strlit("-");
    reveal_strlit("+");
    reveal_strlit(";");
    reveal_strlit("/");
    reveal_strlit("*");
    reveal_strlit("?");
    reveal_strlit("!");
    reveal_strlit("!=");
    reveal_strlit("=");
    reveal_strlit("==");
    reveal_strlit(">");
    reveal_strlit(">=");
    reveal_strlit("<");
    reveal_strlit("<=");
    reveal_strlit(" ");
    lemma_stands(src, at, spelling(id, TokenValueView::Nil));
    assert(src[at + 0] == spelling(id, TokenValueView::Nil)[0]);
    if spelling(id, TokenValueView::Nil).len() > 1 {
        assert(src[at + 1] == spelling(id, TokenValueView::Nil)[1]);
    }
}

/// A token that stands in the text is scanned as itself.
pub proof fn lemma_token(src: Seq<char>, at: int, t: TokenView)
    requires
        letters_are_plain(),
        round_trips(t),
        stands(src, at, t.text()),
    ensures
        lexeme_at(src, at) == (Lexeme::Token { id: t.id, value: t.value, end: at + t.text().len() }),
        t.text().len() > 0,
        !in_class(CharClass::Blank, t.text()[0]),
{
    if t.id == TokenIdentity::Identifier {
        let w = t.value->String_0;
        lemma_word_lexeme(src, at, w);
    } else if t.id == TokenIdentity::Number {
        let n = t.value->Number_0;
        let k = choose|k: int| is_numeral(n, k);
        lemma_number_lexeme(src, at, n, k);
        assert(is_digit(n[0]));
    } else if is_keyword(t.id) {
        lemma_keyword(t.id);
        let w = t.text();
        assert(is_lower(w[0]));
        assert forall|i: int| 0 < i < w.len() implies in_class(CharClass::Word, #[trigger] w[i]) by {
            assert(is_lower(w[i]));
        }
        lemma_word_lexeme(src, at, w);
    } else {
        assert(is_mark_kind(t.id));
        lemma_mark_lexeme(src, at, t.id);
    }
}

/// Scanning from an offset behind which the text is the tokens written out
/// gives the tokens back.
pub proof fn lemma_round_trip_from(src: Seq<char>, from: int, ts: Seq<TokenView>)
    requires
        letters_are_plain(),
        forall|i: int| 0 <= i < ts.len() ==> round_trips(#[trigger] ts[i]),
        0 <= from <= src.len(),
        src.skip(from) == rendered(ts),
    ensures
        tokens_from(src, from) matches Ok(found) && same_tokens(found, ts),
    decreases ts.len(),
{
    reveal_strlit(" ");
    if ts.len() == 0 {
        assert(src.skip(from).len() == 0);
    } else {
        let t = ts[0];
        let text = t.text();
        let k = text.len() as int;
        let rest = ts.drop_first();
        let tail = src.skip(from);
        assert(round_trips(t));
        assert forall|i: int| 0 <= i < rest.len() implies round_trips(#[trigger] rest[i]) by {
            assert(rest[i] == ts[i + 1]);
        }
        if ts.len() == 1 {
            assert(tail == text);
            assert(src.subrange(from, from + k) =~= tail);
        } else {
            assert(tail == text + " "@ + rendered(rest));
            assert(src.subrange(from, from + k) =~= text) by {
                assert forall|i: int| 0 <= i < k implies src.subrange(from, from + k)[i]
                    == text[i] by {
                    assert(tail[i] == src[from + i]);
                }
            }
            assert(tail[k] == ' ');
            assert(src[from + k] == tail[k]);
        }
        assert(stands(src, from, text));
        lemma_token(src, from, t);
        lemma_stands(src, from, text);
        assert(src[from + 0] == text[0]);
        assert(run_end(src, from, CharClass::Blank) == from);
        let next = from + k;
        if ts.len() == 1 {
            assert(src.skip(next) =~= rendered(rest));
            lemma_round_trip_from(src, next, rest);
        } else {
            assert(src.skip(next + 1) =~= rendered(rest)) by {
                assert forall|i: int| 0 <= i < rendered(rest).len() implies src.skip(next + 1)[i]
                    == rendered(rest)[i] by {
                    assert(tail[k + 1 + i] == src[from + (k + 1 + i)]);
                }
            }
            lemma_round_trip_from(src, next + 1, rest);
            assert(in_class(CharClass::Blank, src[next]));
            assert(run_end(src, next, CharClass::Blank) == run_end(
                src,
                next + 1,
                CharClass::Blank,
            ));
            lemma_run_bounds(src, next + 1, CharClass::Blank);
            assert(next_step(src, next, false) == next_step(src, next + 1, false));
            assert(tokens_from(src, next) == tokens_from(src, next + 1)) by {
                let at = run_end(src, next + 1, CharClass::Blank);
                if at < src.len() {
                    lemma_lexeme_advances(src, at);
                }
            }
        }
        let behind = tokens_from(src, next)->Ok_0;
        let first = next_step(src, from, false)->Emit_token;
        assert(tokens_from(src, from) == Ok::<Seq<TokenView>, ScanError>(seq![first] + behind));
        let found = seq![first] + behind;
        assert forall|i: int| 0 <= i < ts.len() implies (#[trigger] found[i]).id == ts[i].id
            && found[i].value == ts[i].value by {
            if i > 0 {
                assert(found[i] == behind[i - 1]);
                assert(rest[i - 1] == ts[i]);
            }
        }
        assert(found.last() == behind.last());
    }
}

/// Round-trip lexing: where tokens are written out with single spaces
/// between them and the text is scanned again, the scan gives the same
/// tokens, up to their positions, and the end-of-input token behind them.
/// Comments and end-of-input tokens are left out, as are strings, which are
/// written out without their quotes.
pub proof fn law_round_trip(ts: Seq<TokenView>)
    requires
        letters_are_plain(),
        forall|i: int| 0 <= i < ts.len() ==> round_trips(#[trigger] ts[i]),
    ensures
        scan_spec(rendered(ts)) matches Ok(found) && same_tokens(found, ts),
{
    let src = rendered(ts);
    assert(src.skip(0) =~= src);
    lemma_round_trip_from(src, 0, ts);
}

} // verus!
