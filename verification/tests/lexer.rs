use squirrel::error::QueryErr;
use squirrel::lexer::Lexer;
use squirrel::lexer::Token;

fn all_tokens(text: &str) -> Vec<Token> {
    let mut lexer = Lexer::new(text);
    let mut out = Vec::new();
    loop {
        let t = lexer.next().unwrap();
        let done = t == Token::Eof;
        out.push(t);
        if done {
            return out;
        }
    }
}

#[test]
fn test_lex_keywords_and_idents() {
    let toks = all_tokens("CREATE TABLE users switch FROM Select");
    assert_eq!(
        toks,
        vec![
            Token::Create,
            Token::Table,
            Token::Ident("users".to_string()),
            Token::Ident("switch".to_string()),
            Token::From,
            // Keywords are recognized in their reserved upper-case spelling;
            // any other casing is an ordinary identifier.
            Token::Ident("Select".to_string()),
            Token::Eof,
        ]
    );
}

#[test]
fn test_lex_literals() {
    let toks = all_tokens("NULL TRUE FALSE 42 3.14 'Alice'");
    assert_eq!(
        toks,
        vec![
            Token::Null,
            Token::Bool(true),
            Token::Bool(false),
            Token::Num("42".to_string()),
            Token::Num("3.14".to_string()),
            Token::Text("Alice".to_string()),
            Token::Eof,
        ]
    );
}

#[test]
fn test_lex_operators_greedy() {
    // >= and <= are taken before their one-character prefixes.
    let toks = all_tokens(">= <= > < = + - * / . , ; ( )");
    assert_eq!(
        toks,
        vec![
            Token::Ge,
            Token::Le,
            Token::Gt,
            Token::Lt,
            Token::Eq,
            Token::Add,
            Token::Sub,
            Token::Mul,
            Token::Div,
            Token::Dot,
            Token::Comma,
            Token::Semicolon,
            Token::LParen,
            Token::RParen,
            Token::Eof,
        ]
    );
}

#[test]
fn test_lex_no_space_between_tokens() {
    let toks = all_tokens("a>=1");
    assert_eq!(
        toks,
        vec![
            Token::Ident("a".to_string()),
            Token::Ge,
            Token::Num("1".to_string()),
            Token::Eof,
        ]
    );
}

#[test]
fn test_lex_digit_led_run_keeps_dots() {
    // Numeric validity is deferred: the run is one token even with two dots.
    let toks = all_tokens("1.2.3");
    assert_eq!(
        toks,
        vec![Token::Num("1.2.3".to_string()), Token::Eof]
    );
}

#[test]
fn test_lex_eof_is_idempotent() {
    let mut lexer = Lexer::new("id ");
    assert_eq!(lexer.next().unwrap(), Token::Ident("id".to_string()));
    assert_eq!(lexer.next().unwrap(), Token::Eof);
    assert_eq!(lexer.next().unwrap(), Token::Eof);
    assert_eq!(lexer.next().unwrap(), Token::Eof);
}

#[test]
fn test_lex_bad_character() {
    let mut lexer = Lexer::new("id #");
    assert_eq!(lexer.next().unwrap(), Token::Ident("id".to_string()));
    assert_eq!(lexer.next(), Err(QueryErr::BadChar { pos: 3, ch: '#' }));
}

#[test]
fn test_lex_unterminated_text() {
    let mut lexer = Lexer::new("'abc");
    assert_eq!(lexer.next(), Err(QueryErr::UnterminatedText { pos: 0 }));
}

#[test]
fn test_lex_empty_text_literal() {
    let toks = all_tokens("''");
    assert_eq!(toks, vec![Token::Text("".to_string()), Token::Eof]);
}

#[test]
fn test_lex_underscore_ident() {
    let toks = all_tokens("_tmp user_name x1");
    assert_eq!(
        toks,
        vec![
            Token::Ident("_tmp".to_string()),
            Token::Ident("user_name".to_string()),
            Token::Ident("x1".to_string()),
            Token::Eof,
        ]
    );
}
