use crafting_interpreters::scanner::{scan, ScanError, Scanner};
use crafting_interpreters::token::{Token, TokenIdentity, TokenValue};

fn ids(source: &str) -> Vec<TokenIdentity> {
    scan(source).unwrap().iter().map(|t| t.id).collect()
}

#[test]
fn test_oneline() {
    let input = "class Foo { var x = 1; }";
    let mut scanner = Scanner::new(input);
    let tokens: Vec<Token> = scanner.tokens().unwrap();
    assert_eq!(tokens.len(), 10);
    assert_eq!(tokens[0].id, TokenIdentity::Class);
    assert_eq!(tokens[1].id, TokenIdentity::Identifier);
    assert_eq!(tokens[2].id, TokenIdentity::LeftBrace);
    assert_eq!(tokens[3].id, TokenIdentity::Var);
    assert_eq!(tokens[4].id, TokenIdentity::Identifier);
    assert_eq!(tokens[5].id, TokenIdentity::Equal);
    assert_eq!(tokens[6].id, TokenIdentity::Number);
    assert_eq!(tokens[7].id, TokenIdentity::Semicolon);
    assert_eq!(tokens[8].id, TokenIdentity::RightBrace);
    assert_eq!(tokens[9].id, TokenIdentity::Eof);
}

#[test]
fn scans_operators_by_longest_match() {
    assert_eq!(
        ids("! != = == < <= > >= / //x"),
        vec![
            TokenIdentity::Bang,
            TokenIdentity::BangEqual,
            TokenIdentity::Equal,
            TokenIdentity::EqualEqual,
            TokenIdentity::Less,
            TokenIdentity::LessEqual,
            TokenIdentity::Greater,
            TokenIdentity::GreaterEqual,
            TokenIdentity::Slash,
            TokenIdentity::Comment,
            TokenIdentity::Eof,
        ]
    );
}

#[test]
fn trailing_dot_stays_a_dot() {
    let tokens = scan("12.5 7.foo").unwrap();
    assert_eq!(tokens[0].id, TokenIdentity::Number);
    assert!(matches!(&tokens[0].value, TokenValue::Number(n) if n == "12.5"));
    assert_eq!(tokens[1].id, TokenIdentity::Number);
    assert!(matches!(&tokens[1].value, TokenValue::Number(n) if n == "7"));
    assert_eq!(tokens[2].id, TokenIdentity::Dot);
    assert_eq!(tokens[3].id, TokenIdentity::Identifier);
    assert_eq!(tokens[4].id, TokenIdentity::Eof);
}

#[test]
fn tracks_lines_and_columns() {
    let tokens = scan("var a;\n  print(a);").unwrap();
    assert_eq!((tokens[0].line, tokens[0].column), (1, 1));
    assert_eq!((tokens[1].line, tokens[1].column), (1, 5));
    assert_eq!((tokens[2].line, tokens[2].column), (1, 6));
    assert_eq!((tokens[3].line, tokens[3].column), (2, 3));
    assert_eq!((tokens[4].line, tokens[4].column), (2, 8));
    let eof = tokens.last().unwrap();
    assert_eq!(eof.id, TokenIdentity::Eof);
    assert_eq!((eof.line, eof.column), (2, 12));
}

#[test]
fn string_token_points_at_opening_quote() {
    let tokens = scan("  \"hi there\" x").unwrap();
    assert_eq!(tokens[0].id, TokenIdentity::String);
    assert!(matches!(&tokens[0].value, TokenValue::String(s) if s == "hi there"));
    assert_eq!((tokens[0].line, tokens[0].column), (1, 3));
    assert_eq!((tokens[1].line, tokens[1].column), (1, 14));
}

#[test]
fn keywords_carry_their_values() {
    let tokens = scan("true false this super nil foo_bar").unwrap();
    assert!(matches!(tokens[0].value, TokenValue::Bool(true)));
    assert!(matches!(tokens[1].value, TokenValue::Bool(false)));
    assert!(matches!(&tokens[2].value, TokenValue::String(s) if s == "this"));
    assert!(matches!(&tokens[3].value, TokenValue::String(s) if s == "super"));
    assert!(matches!(tokens[4].value, TokenValue::Nil));
    assert_eq!(tokens[5].id, TokenIdentity::Identifier);
    assert!(matches!(&tokens[5].value, TokenValue::String(s) if s == "foo_bar"));
}

#[test]
fn comment_carries_its_text() {
    let tokens = scan("a // rest of line\nb").unwrap();
    assert_eq!(tokens[1].id, TokenIdentity::Comment);
    assert!(matches!(&tokens[1].value, TokenValue::String(s) if s == " rest of line"));
    assert_eq!((tokens[1].line, tokens[1].column), (1, 3));
    assert_eq!((tokens[2].line, tokens[2].column), (2, 1));
}

#[test]
fn unterminated_string_is_an_error() {
    let error = scan("var a = \"abc").unwrap_err();
    assert_eq!(error, ScanError::UnterminatedString { line: 1, column: 9 });
    assert_eq!(error.to_text(), "Unterminated string literal at line 1:9");
}

#[test]
fn unexpected_character_is_an_error() {
    let error = scan("a\n #").unwrap_err();
    assert_eq!(error, ScanError::UnexpectedCharacter { line: 2, column: 2, character: '#' });
    assert_eq!(error.to_text(), "Unexpected character at line 2:2: #");
}

#[test]
fn scanner_yields_eof_once_then_nothing() {
    let mut scanner = Scanner::new(" ");
    let first = scanner.next_token().unwrap().unwrap();
    assert_eq!(first.id, TokenIdentity::Eof);
    assert!(scanner.next_token().is_none());
    assert!(scanner.next_token().is_none());
}

#[test]
fn token_text_is_its_spelling() {
    let tokens = scan("while (x1 <= 10.50) \"s\"").unwrap();
    let texts: Vec<String> = tokens.iter().map(|t| t.to_text()).collect();
    assert_eq!(texts, vec!["while", "(", "x", "1", "<=", "10.50", ")", "s", "eof"]);
}

#[test]
fn letters_of_any_script_make_identifiers() {
    let tokens = scan("héllo = мир;").unwrap();
    assert_eq!(tokens[0].id, TokenIdentity::Identifier);
    assert!(matches!(&tokens[0].value, TokenValue::String(s) if s == "héllo"));
    assert_eq!((tokens[1].line, tokens[1].column), (1, 7));
    assert!(matches!(&tokens[2].value, TokenValue::String(s) if s == "мир"));
    assert_eq!((tokens[3].line, tokens[3].column), (1, 12));
}

#[test]
fn digits_do_not_continue_an_identifier() {
    assert_eq!(
        ids("ab12"),
        vec![TokenIdentity::Identifier, TokenIdentity::Number, TokenIdentity::Eof]
    );
    let tokens = scan("a_b c").unwrap();
    assert!(matches!(&tokens[0].value, TokenValue::String(s) if s == "a_b"));
    assert_eq!(
        scan("_x").unwrap_err(),
        ScanError::UnexpectedCharacter { line: 1, column: 1, character: '_' }
    );
}

#[test]
fn tokens_written_out_scan_back() {
    let source = "var x1 = 2.50 ; while ( x <= 10 and ! done ) { x = x + 1 ; } this . f ( a , b ) ? c : d";
    let tokens = scan(source).unwrap();
    let written: Vec<String> =
        tokens[..tokens.len() - 1].iter().map(|t| t.to_text()).collect();
    let again = scan(&written.join(" ")).unwrap();
    assert_eq!(again.len(), tokens.len());
    for (a, b) in again.iter().zip(tokens.iter()) {
        assert_eq!(a.id, b.id);
        assert!(a.value.same(&b.value));
    }
    assert_eq!(again.last().unwrap().id, TokenIdentity::Eof);
}

#[test]
fn strings_are_written_out_without_quotes() {
    let tokens = scan("\"two words\"").unwrap();
    let again = scan(&tokens[0].to_text()).unwrap();
    assert_eq!(
        again.iter().map(|t| t.id).collect::<Vec<TokenIdentity>>(),
        vec![TokenIdentity::Identifier, TokenIdentity::Identifier, TokenIdentity::Eof]
    );
}
