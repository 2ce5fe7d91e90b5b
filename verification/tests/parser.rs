use squirrel::error::Expected;
use squirrel::error::QueryErr;
use squirrel::lexer::Lexer;
use squirrel::lexer::Token;
use squirrel::parser::Clause;
use squirrel::parser::Expr;
use squirrel::parser::Parser;
use squirrel::parser::Stmt;

fn parse_one(text: &str) -> Stmt {
    let lexer = Lexer::new(text);
    let mut parser = Parser::new(lexer).unwrap();
    parser.parse_stmt().unwrap()
}

fn parse_all(text: &str) -> Result<Vec<Stmt>, QueryErr> {
    let lexer = Lexer::new(text);
    let mut parser = Parser::new(lexer).unwrap();
    parser.parse()
}

#[test]
fn test_parse_drop_table() {
    let lexer = Lexer::new("DROP TABLE users");
    let mut parser = Parser::new(lexer).unwrap();
    let stmt = parser.parse_stmt().unwrap();
    assert_eq!(
        stmt,
        Stmt::Drop {
            table: "users".to_string()
        }
    );
}

#[test]
fn test_parse_select_star() {
    let lexer = Lexer::new("SELECT * FROM users");
    let mut parser = Parser::new(lexer).unwrap();
    let stmt = parser.parse_stmt().unwrap();
    assert_eq!(
        stmt,
        Stmt::Select {
            table: "users".to_string(),
            columns: Clause::Columns(vec!["*".to_string()]).boxed(),
            clauses: vec![],
        }
    );
}

#[test]
fn test_parse_select_cols() {
    let lexer = Lexer::new("SELECT id, name FROM users");
    let mut parser = Parser::new(lexer).unwrap();
    let stmt = parser.parse_stmt().unwrap();
    assert_eq!(
        stmt,
        Stmt::Select {
            table: "users".to_string(),
            columns: Clause::Columns(vec!["id".to_string(), "name".to_string()]).boxed(),
            clauses: vec![],
        }
    );
}

#[test]
fn test_parse_insert() {
    let lexer = Lexer::new("INSERT INTO users (id, name) VALUES (1, 'Alice')");
    let mut parser = Parser::new(lexer).unwrap();
    let stmt = parser.parse_stmt().unwrap();
    assert_eq!(
        stmt,
        Stmt::Insert {
            table: "users".to_string(),
            columns: Clause::Columns(vec!["id".to_string(), "name".to_string()]).boxed(),
            values: Clause::Values(vec![Expr::Int(1), Expr::Text("Alice".to_string())]).boxed(),
            clauses: vec![],
        }
    );
}

#[test]
fn test_parse_select_where() {
    let lexer = Lexer::new("SELECT * FROM users WHERE id = 1 AND name = 'Alice'");
    let mut parser = Parser::new(lexer).unwrap();
    let stmt = parser.parse_stmt().unwrap();

    let expected_where = Expr::Binary {
        op: "AND".to_string(),
        left: Expr::Binary {
            op: "=".to_string(),
            left: Expr::Ident("id".to_string()).boxed(),
            right: Expr::Int(1).boxed(),
        }
        .boxed(),
        right: Expr::Binary {
            op: "=".to_string(),
            left: Expr::Ident("name".to_string()).boxed(),
            right: Expr::Text("Alice".to_string()).boxed(),
        }
        .boxed(),
    };

    assert_eq!(
        stmt,
        Stmt::Select {
            table: "users".to_string(),
            columns: Clause::Columns(vec!["*".to_string()]).boxed(),
            clauses: vec![Clause::Where(expected_where.boxed())],
        }
    );
}

#[test]
fn test_parse_create() {
    let stmt = parse_one("CREATE TABLE users (id INT, name TEXT)");
    assert_eq!(
        stmt,
        Stmt::Create {
            table: "users".to_string(),
            defs: Clause::Defs(vec![
                ("id".to_string(), "INT".to_string()),
                ("name".to_string(), "TEXT".to_string()),
            ])
            .boxed(),
            clauses: vec![],
        }
    );
}

#[test]
fn test_parse_update() {
    let stmt = parse_one("UPDATE users SET name = 'Bob', age = 42 WHERE id = 1");
    assert_eq!(
        stmt,
        Stmt::Update {
            table: "users".to_string(),
            assigns: Clause::Assigns(vec![
                ("name".to_string(), Expr::Text("Bob".to_string())),
                ("age".to_string(), Expr::Int(42)),
            ])
            .boxed(),
            clauses: vec![Clause::Where(
                Expr::Binary {
                    op: "=".to_string(),
                    left: Expr::Ident("id".to_string()).boxed(),
                    right: Expr::Int(1).boxed(),
                }
                .boxed()
            )],
        }
    );
}

#[test]
fn test_parse_delete_without_where() {
    let stmt = parse_one("DELETE FROM users");
    assert_eq!(
        stmt,
        Stmt::Delete {
            table: "users".to_string(),
            clauses: vec![],
        }
    );
}

#[test]
fn test_parse_delete_with_where() {
    let stmt = parse_one("DELETE FROM users WHERE id = 7");
    assert_eq!(
        stmt,
        Stmt::Delete {
            table: "users".to_string(),
            clauses: vec![Clause::Where(
                Expr::Binary {
                    op: "=".to_string(),
                    left: Expr::Ident("id".to_string()).boxed(),
                    right: Expr::Int(7).boxed(),
                }
                .boxed()
            )],
        }
    );
}

#[test]
fn test_parse_insert_all_columns() {
    let stmt = parse_one("INSERT INTO t VALUES (NULL, TRUE, FALSE)");
    assert_eq!(
        stmt,
        Stmt::Insert {
            table: "t".to_string(),
            columns: Clause::Columns(vec![]).boxed(),
            values: Clause::Values(vec![Expr::Null, Expr::Bool(true), Expr::Bool(false)]).boxed(),
            clauses: vec![],
        }
    );
}

#[test]
fn test_separators_are_idempotent() {
    let a = parse_all("DROP TABLE t;;;").unwrap();
    let b = parse_all("DROP TABLE t").unwrap();
    assert_eq!(a, b);
    assert_eq!(a.len(), 1);

    let c = parse_all(";;SELECT * FROM t;;").unwrap();
    assert_eq!(c.len(), 1);
    assert!(matches!(c[0], Stmt::Select { .. }));
}

#[test]
fn test_parse_empty_input() {
    assert_eq!(parse_all("").unwrap(), vec![]);
    assert_eq!(parse_all(" ;; ; ").unwrap(), vec![]);
}

#[test]
fn test_parse_two_statements() {
    let v = parse_all("DROP TABLE a; DROP TABLE b").unwrap();
    assert_eq!(
        v,
        vec![
            Stmt::Drop {
                table: "a".to_string()
            },
            Stmt::Drop {
                table: "b".to_string()
            },
        ]
    );
}

#[test]
fn test_and_is_left_associative() {
    let stmt = parse_one("SELECT * FROM t WHERE a = 1 AND b = 2 AND c = 3");
    let cmp = |name: &str, v: i64| {
        Expr::Binary {
            op: "=".to_string(),
            left: Expr::Ident(name.to_string()).boxed(),
            right: Expr::Int(v).boxed(),
        }
    };
    let expected = Expr::Binary {
        op: "AND".to_string(),
        left: Expr::Binary {
            op: "AND".to_string(),
            left: cmp("a", 1).boxed(),
            right: cmp("b", 2).boxed(),
        }
        .boxed(),
        right: cmp("c", 3).boxed(),
    };
    match stmt {
        Stmt::Select { clauses, .. } => {
            assert_eq!(clauses, vec![Clause::Where(expected.boxed())]);
        }
        other => panic!("expected a SELECT, got {:?}", other),
    }
}

#[test]
fn test_or_below_and() {
    let stmt = parse_one("SELECT * FROM t WHERE a = 1 OR b = 2 AND c = 3");
    let cmp = |name: &str, v: i64| {
        Expr::Binary {
            op: "=".to_string(),
            left: Expr::Ident(name.to_string()).boxed(),
            right: Expr::Int(v).boxed(),
        }
    };
    let expected = Expr::Binary {
        op: "OR".to_string(),
        left: cmp("a", 1).boxed(),
        right: Expr::Binary {
            op: "AND".to_string(),
            left: cmp("b", 2).boxed(),
            right: cmp("c", 3).boxed(),
        }
        .boxed(),
    };
    match stmt {
        Stmt::Select { clauses, .. } => {
            assert_eq!(clauses, vec![Clause::Where(expected.boxed())]);
        }
        other => panic!("expected a SELECT, got {:?}", other),
    }
}

#[test]
fn test_comparison_does_not_chain() {
    // Comparison binds at most one operator per pair: the statement itself
    // parses with `a = b` only, leaving `= c` unconsumed ...
    let stmt = parse_one("SELECT * FROM t WHERE a = b = c");
    let expected = Expr::Binary {
        op: "=".to_string(),
        left: Expr::Ident("a".to_string()).boxed(),
        right: Expr::Ident("b".to_string()).boxed(),
    };
    match stmt {
        Stmt::Select { clauses, .. } => {
            assert_eq!(clauses, vec![Clause::Where(expected.boxed())]);
        }
        other => panic!("expected a SELECT, got {:?}", other),
    }
    // ... so a full parse of the same text fails on the leftover `=`, which
    // no statement can begin.
    let err = parse_all("SELECT * FROM t WHERE a = b = c").unwrap_err();
    assert_eq!(
        err,
        QueryErr::UnexpectedToken {
            expected: Expected::Stmt,
            found: Token::Eq,
        }
    );
}

#[test]
fn test_parenthesized_expression() {
    let stmt = parse_one("SELECT * FROM t WHERE (a = 1 OR b = 2) AND c = 3");
    let cmp = |name: &str, v: i64| {
        Expr::Binary {
            op: "=".to_string(),
            left: Expr::Ident(name.to_string()).boxed(),
            right: Expr::Int(v).boxed(),
        }
    };
    let expected = Expr::Binary {
        op: "AND".to_string(),
        left: Expr::Binary {
            op: "OR".to_string(),
            left: cmp("a", 1).boxed(),
            right: cmp("b", 2).boxed(),
        }
        .boxed(),
        right: cmp("c", 3).boxed(),
    };
    match stmt {
        Stmt::Select { clauses, .. } => {
            assert_eq!(clauses, vec![Clause::Where(expected.boxed())]);
        }
        other => panic!("expected a SELECT, got {:?}", other),
    }
}

#[test]
fn test_error_select_missing_columns() {
    // An identifier was required before FROM; the error names the identifier
    // class and the token found.
    let err = parse_all("SELECT FROM").unwrap_err();
    assert_eq!(
        err,
        QueryErr::UnexpectedToken {
            expected: Expected::Ident,
            found: Token::From,
        }
    );
}

#[test]
fn test_error_not_a_statement() {
    let err = parse_all("EXPLAIN t").unwrap_err();
    assert_eq!(
        err,
        QueryErr::UnexpectedToken {
            expected: Expected::Stmt,
            found: Token::Ident("EXPLAIN".to_string()),
        }
    );
}

#[test]
fn test_error_list_neither_comma_nor_close() {
    let err = parse_all("INSERT INTO t (a b) VALUES (1)").unwrap_err();
    assert_eq!(
        err,
        QueryErr::UnexpectedToken {
            expected: Expected::CommaOrRParen,
            found: Token::Ident("b".to_string()),
        }
    );
}

#[test]
fn test_error_missing_expression() {
    let err = parse_all("SELECT * FROM t WHERE ;").unwrap_err();
    assert_eq!(
        err,
        QueryErr::UnexpectedToken {
            expected: Expected::Expr,
            found: Token::Semicolon,
        }
    );
}

#[test]
fn test_error_expected_kind() {
    let err = parse_all("DROP users").unwrap_err();
    assert_eq!(
        err,
        QueryErr::UnexpectedToken {
            expected: Expected::Kind(squirrel::lexer::TokenKind::Table),
            found: Token::Ident("users".to_string()),
        }
    );
}

#[test]
fn test_numeric_literals_in_values() {
    let stmt = parse_one("INSERT INTO t VALUES (42, 3.14)");
    assert_eq!(
        stmt,
        Stmt::Insert {
            table: "t".to_string(),
            columns: Clause::Columns(vec![]).boxed(),
            values: Clause::Values(vec![
                Expr::Int(42),
                Expr::Float("3.14".to_string()),
            ])
            .boxed(),
            clauses: vec![],
        }
    );
}

#[test]
fn test_invalid_numeric_literal() {
    let err = parse_all("INSERT INTO t VALUES (1.2.3)").unwrap_err();
    assert_eq!(err, QueryErr::InvalidExpr("1.2.3".to_string()));
}

#[test]
fn test_parser_new_reports_lex_fault() {
    assert_eq!(
        Parser::new(Lexer::new("# DROP")).err(),
        Some(QueryErr::BadChar { pos: 0, ch: '#' })
    );
    assert_eq!(
        Parser::new(Lexer::new("DROP 'oops")).err(),
        Some(QueryErr::UnterminatedText { pos: 5 })
    );
}

#[test]
fn test_error_keyword_cannot_begin_statement() {
    let err = parse_all("ALTER TABLE t").unwrap_err();
    assert_eq!(
        err,
        QueryErr::UnexpectedToken {
            expected: Expected::Stmt,
            found: Token::Alter,
        }
    );
}
