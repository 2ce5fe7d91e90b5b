//! The recursive-descent parser: a state machine over the lexer, the current
//! token, and one token of lookahead. Statement dispatch picks one parse
//! routine per leading keyword; expressions are parsed by precedence
//! climbing, with `OR` below `AND` below a single, non-chaining comparison.
//!
//! Each grammar production has a spec-level counterpart (`sp_stmt`,
//! `sp_block`, `sp_expr`, ...) over the window state `PState`, and every
//! parse routine is proved equivalent to its production in both directions:
//! on success the routine returns exactly the value and final state the
//! production gives, and whenever the production gives a value the routine
//! cannot fail. Well-formedness is preserved throughout, the scan never
//! moves backwards, and every loop and recursion shrinks the unconsumed
//! input.

use vstd::prelude::*;

use crate::error::Expected;
use crate::error::QueryErr;
use crate::lexer::Lexer;
use crate::lexer::Token;
use crate::lexer::TokenKind;
use crate::lexer::TokenStep;
use crate::lexer::TokenV;
use crate::lexer::kind_of;
use crate::lexer::lemma_token_at_bounds;
use crate::lexer::spec_token_at;
use crate::number::digits_val;
use crate::number::is_float_text;
use crate::number::is_int_text;
use crate::number::number_expr_of;
use crate::number::parse_number;

verus! {

/// One parsed statement. `clauses` holds the optional modifying clauses, in
/// source order; a missing optional clause is an empty sequence, never an
/// absent field. `Union`, like the `OrderBy` and `Limit` clauses, is part of
/// the data model the executor accepts but is not yet produced by any parse
/// path.
#[derive(Debug, PartialEq)]
pub enum Stmt {
    Create { table: String, defs: Box<Clause>, clauses: Vec<Clause> },
    Insert { table: String, columns: Box<Clause>, values: Box<Clause>, clauses: Vec<Clause> },
    Select { table: String, columns: Box<Clause>, clauses: Vec<Clause> },
    Update { table: String, assigns: Box<Clause>, clauses: Vec<Clause> },
    Delete { table: String, clauses: Vec<Clause> },
    Drop { table: String },
    Union { left: Box<Stmt>, right: Box<Stmt>, all: bool },
}

impl Stmt {
    /// This statement behind a heap allocation.
    pub fn boxed(self) -> (b: Box<Stmt>)
        ensures
            *b == self,
    {
        Box::new(self)
    }
}

/// Statement-scoped substructure: value lists, column lists, assignments,
/// column definitions (name and declared type), ordering keys (the flag is
/// true for ascending), a filter, or a row bound.
#[derive(Debug, PartialEq)]
pub enum Clause {
    Values(Vec<Expr>),
    Columns(Vec<String>),
    Assigns(Vec<(String, Expr)>),
    Defs(Vec<(String, String)>),
    OrderBy(Vec<(String, bool)>),
    Where(Box<Expr>),
    Limit(u64),
}

impl Clause {
    /// This clause behind a heap allocation.
    pub fn boxed(self) -> (b: Box<Clause>)
        ensures
            *b == self,
    {
        Box::new(self)
    }
}

/// A scalar expression. A `Float` keeps the literal text that the tokenizer
/// saw — validated here, converted by the consumer — so that the tree itself
/// stays exact. `op` is the operator's spelling (`"AND"`, `"="`, ...); the
/// parser is its sole producer.
#[derive(Debug, PartialEq)]
pub enum Expr {
    Null,
    Bool(bool),
    Int(i64),
    Float(String),
    Text(String),
    Ident(String),
    Unary { op: String, right: Box<Expr> },
    Binary { op: String, left: Box<Expr>, right: Box<Expr> },
}

impl Expr {
    /// This expression behind a heap allocation.
    pub fn boxed(self) -> (b: Box<Expr>)
        ensures
            *b == self,
    {
        Box::new(self)
    }
}

/// The mathematical value of an expression: the same variants as `Expr`,
/// with each carried string abstracted to its sequence of characters.
pub enum ExprV {
    Null,
    Bool(bool),
    Int(i64),
    Float(Seq<char>),
    Text(Seq<char>),
    Ident(Seq<char>),
    Unary { op: Seq<char>, right: Box<ExprV> },
    Binary { op: Seq<char>, left: Box<ExprV>, right: Box<ExprV> },
}

impl View for Expr {
    type V = ExprV;

    open spec fn view(&self) -> ExprV
        decreases self,
    {
        match self {
            Expr::Null => ExprV::Null,
            Expr::Bool(b) => ExprV::Bool(*b),
            Expr::Int(i) => ExprV::Int(*i),
            Expr::Float(s) => ExprV::Float(s@),
            Expr::Text(s) => ExprV::Text(s@),
            Expr::Ident(s) => ExprV::Ident(s@),
            Expr::Unary { op, right } => ExprV::Unary {
                op: op@,
                right: Box::new((**right)@),
            },
            Expr::Binary { op, left, right } => ExprV::Binary {
                op: op@,
                left: Box::new((**left)@),
                right: Box::new((**right)@),
            },
        }
    }
}

/// The mathematical value of a clause, with strings as character sequences.
pub enum ClauseV {
    Values(Seq<ExprV>),
    Columns(Seq<Seq<char>>),
    Assigns(Seq<(Seq<char>, ExprV)>),
    Defs(Seq<(Seq<char>, Seq<char>)>),
    OrderBy(Seq<(Seq<char>, bool)>),
    Where(Box<ExprV>),
    Limit(u64),
}

/// The mathematical value of a statement.
pub enum StmtV {
    Create { table: Seq<char>, defs: Box<ClauseV>, clauses: Seq<ClauseV> },
    Insert { table: Seq<char>, columns: Box<ClauseV>, values: Box<ClauseV>, clauses: Seq<ClauseV> },
    Select { table: Seq<char>, columns: Box<ClauseV>, clauses: Seq<ClauseV> },
    Update { table: Seq<char>, assigns: Box<ClauseV>, clauses: Seq<ClauseV> },
    Delete { table: Seq<char>, clauses: Seq<ClauseV> },
    Drop { table: Seq<char> },
    Union { left: Box<StmtV>, right: Box<StmtV>, all: bool },
}

/// The values of a list of expressions.
pub open spec fn exprs_v(v: Seq<Expr>) -> Seq<ExprV> {
    v.map_values(|e: Expr| e@)
}

/// The values of a list of column names.
pub open spec fn cols_v(v: Seq<String>) -> Seq<Seq<char>> {
    v.map_values(|c: String| c@)
}

/// The values of a list of assignments.
pub open spec fn assigns_v(v: Seq<(String, Expr)>) -> Seq<(Seq<char>, ExprV)> {
    v.map_values(|p: (String, Expr)| (p.0@, p.1@))
}

/// The values of a list of column definitions.
pub open spec fn defs_v(v: Seq<(String, String)>) -> Seq<(Seq<char>, Seq<char>)> {
    v.map_values(|p: (String, String)| (p.0@, p.1@))
}

/// The values of a list of ordering keys.
pub open spec fn order_v(v: Seq<(String, bool)>) -> Seq<(Seq<char>, bool)> {
    v.map_values(|p: (String, bool)| (p.0@, p.1))
}

/// The values of a list of clauses.
pub open spec fn clauses_v(v: Seq<Clause>) -> Seq<ClauseV> {
    v.map_values(|c: Clause| c@)
}

/// The values of a list of statements.
pub open spec fn stmts_v(v: Seq<Stmt>) -> Seq<StmtV> {
    v.map_values(|x: Stmt| x@)
}

impl View for Clause {
    type V = ClauseV;

    open spec fn view(&self) -> ClauseV {
        match self {
            Clause::Values(v) => ClauseV::Values(exprs_v(v@)),
            Clause::Columns(v) => ClauseV::Columns(cols_v(v@)),
            Clause::Assigns(v) => ClauseV::Assigns(assigns_v(v@)),
            Clause::Defs(v) => ClauseV::Defs(defs_v(v@)),
            Clause::OrderBy(v) => ClauseV::OrderBy(order_v(v@)),
            Clause::Where(e) => ClauseV::Where(Box::new((**e)@)),
            Clause::Limit(n) => ClauseV::Limit(*n),
        }
    }
}

impl View for Stmt {
    type V = StmtV;

    open spec fn view(&self) -> StmtV
        decreases self,
    {
        match self {
            Stmt::Create { table, defs, clauses } => StmtV::Create {
                table: table@,
                defs: Box::new((**defs)@),
                clauses: clauses_v(clauses@),
            },
            Stmt::Insert { table, columns, values, clauses } => StmtV::Insert {
                table: table@,
                columns: Box::new((**columns)@),
                values: Box::new((**values)@),
                clauses: clauses_v(clauses@),
            },
            Stmt::Select { table, columns, clauses } => StmtV::Select {
                table: table@,
                columns: Box::new((**columns)@),
                clauses: clauses_v(clauses@),
            },
            Stmt::Update { table, assigns, clauses } => StmtV::Update {
                table: table@,
                assigns: Box::new((**assigns)@),
                clauses: clauses_v(clauses@),
            },
            Stmt::Delete { table, clauses } => StmtV::Delete {
                table: table@,
                clauses: clauses_v(clauses@),
            },
            Stmt::Drop { table } => StmtV::Drop { table: table@ },
            Stmt::Union { left, right, all } => StmtV::Union {
                left: Box::new((**left)@),
                right: Box::new((**right)@),
                all: *all,
            },
        }
    }
}

/// How much a buffered token still weighs: the end-of-input marker consumes
/// no further text, every other token does.
pub open spec fn tok_w(tv: TokenV) -> int {
    if tv is Eof {
        0
    } else {
        1
    }
}

/// The token kinds that may begin a statement.
pub open spec fn starts_stmt(tv: TokenV) -> bool {
    tv is Create || tv is Insert || tv is Select || tv is Update || tv is Delete || tv is Drop
}

/// An error naming the statement class: only statement dispatch itself
/// reports one, never the routine for a particular statement.
pub open spec fn stmt_class_err(e: QueryErr) -> bool {
    e matches QueryErr::UnexpectedToken { expected, .. } && expected == Expected::Stmt
}

/// The token kinds that may begin a primary expression.
pub open spec fn starts_primary(tv: TokenV) -> bool {
    tv is Null || tv is Bool || tv is Num || tv is Text || tv is Ident || tv is LParen
}

/// The parser's window over the token stream, at the spec level: the query
/// text, the scan position, and the two buffered token values. Everything a
/// parse routine does is a function of this state.
pub struct PState {
    pub text: Seq<char>,
    pub pos: int,
    pub curr: TokenV,
    pub peek: TokenV,
}

/// Unconsumed input of a window state: text still to scan plus the weight of
/// the two buffered tokens.
pub open spec fn st_m(s: PState) -> int {
    s.text.len() - s.pos + tok_w(s.curr) + tok_w(s.peek)
}

/// One spec-level step of the window: the current token comes out, the
/// lookahead moves up, and one token is lexed at the scan position. The step
/// exists only for outcomes the tokenizer can produce — a bounded position
/// that advances for every token but the end marker — and not at all on a
/// lexical fault.
pub open spec fn st_next(s: PState) -> Option<(TokenV, PState)> {
    match spec_token_at(s.text, s.pos) {
        TokenStep::Tok(tv, q) => if 0 <= s.pos <= q <= s.text.len() && (!(tv is Eof) ==> q >= s.pos
            + 1) && (tv is Eof ==> q == s.text.len()) {
            Some((s.curr, PState { text: s.text, pos: q, curr: s.peek, peek: tv }))
        } else {
            None
        },
        _ => None,
    }
}

/// The comparison operators, with their spelling.
pub open spec fn cmp_op_text(tv: TokenV) -> Seq<char> {
    match tv {
        TokenV::Eq => "="@,
        TokenV::Gt => ">"@,
        TokenV::Lt => "<"@,
        TokenV::Ge => ">="@,
        TokenV::Le => "<="@,
        _ => Seq::empty(),
    }
}

/// Whether a token is one of the comparison operators.
pub open spec fn is_cmp_op(tv: TokenV) -> bool {
    tv is Eq || tv is Gt || tv is Lt || tv is Ge || tv is Le
}

/// The primary production, at the spec level: a literal, an identifier, or a
/// parenthesized expression; a numeric token resolves integer-first with the
/// float-text fallback, and anything else has no parse.
#[verifier::opaque]
pub open spec fn sp_primary(s: PState) -> Option<(ExprV, PState)>
    decreases st_m(s), 0int,
{
    match st_next(s) {
        None => None,
        Some((t, s1)) => match t {
            TokenV::Null => Some((ExprV::Null, s1)),
            TokenV::Bool(b) => Some((ExprV::Bool(b), s1)),
            TokenV::Num(n) => if is_int_text(n) {
                Some((ExprV::Int(digits_val(n) as i64), s1))
            } else if is_float_text(n) {
                Some((ExprV::Float(n), s1))
            } else {
                None
            },
            TokenV::Text(t2) => Some((ExprV::Text(t2), s1)),
            TokenV::Ident(nm) => Some((ExprV::Ident(nm), s1)),
            TokenV::LParen => match sp_expr(s1) {
                None => None,
                Some((e, s2)) => if st_m(s2) <= st_m(s1) && s2.curr is RParen {
                    match st_next(s2) {
                        None => None,
                        Some((_, s3)) => Some((e, s3)),
                    }
                } else {
                    None
                },
            },
            _ => None,
        },
    }
}

/// The comparison production: a primary, then at most one comparison
/// operator and one more primary. It never chains.
#[verifier::opaque]
pub open spec fn sp_comparison(s: PState) -> Option<(ExprV, PState)>
    decreases st_m(s), 1int,
{
    match sp_primary(s) {
        None => None,
        Some((left, s1)) => if st_m(s1) < st_m(s) {
            if is_cmp_op(s1.curr) {
                match st_next(s1) {
                    None => None,
                    Some((opt, s2)) => match sp_primary(s2) {
                        None => None,
                        Some((right, s3)) => Some(
                            (
                                ExprV::Binary {
                                    op: cmp_op_text(opt),
                                    left: Box::new(left),
                                    right: Box::new(right),
                                },
                                s3,
                            ),
                        ),
                    },
                }
            } else {
                Some((left, s1))
            }
        } else {
            None
        },
    }
}

/// The trailing `AND`-conjuncts, folded left-associatively onto `left`.
#[verifier::opaque]
pub open spec fn sp_and_rest(left: ExprV, s: PState) -> Option<(ExprV, PState)>
    decreases st_m(s), 2int,
{
    if s.curr is And {
        match st_next(s) {
            None => None,
            Some((_, s1)) => match sp_comparison(s1) {
                None => None,
                Some((right, s2)) => if 0 <= st_m(s2) < st_m(s) {
                    sp_and_rest(
                        ExprV::Binary {
                            op: "AND"@,
                            left: Box::new(left),
                            right: Box::new(right),
                        },
                        s2,
                    )
                } else {
                    None
                },
            },
        }
    } else {
        Some((left, s))
    }
}

/// The conjunction production: one or more comparisons joined by `AND`.
#[verifier::opaque]
pub open spec fn sp_and(s: PState) -> Option<(ExprV, PState)>
    decreases st_m(s), 3int,
{
    match sp_comparison(s) {
        None => None,
        Some((left, s1)) => if 0 <= st_m(s1) < st_m(s) {
            sp_and_rest(left, s1)
        } else {
            None
        },
    }
}

/// The trailing `OR`-disjuncts, folded left-associatively onto `left`.
#[verifier::opaque]
pub open spec fn sp_or_rest(left: ExprV, s: PState) -> Option<(ExprV, PState)>
    decreases st_m(s), 4int,
{
    if s.curr is Or {
        match st_next(s) {
            None => None,
            Some((_, s1)) => match sp_and(s1) {
                None => None,
                Some((right, s2)) => if 0 <= st_m(s2) < st_m(s) {
                    sp_or_rest(
                        ExprV::Binary {
                            op: "OR"@,
                            left: Box::new(left),
                            right: Box::new(right),
                        },
                        s2,
                    )
                } else {
                    None
                },
            },
        }
    } else {
        Some((left, s))
    }
}

/// The expression production, lowest precedence: one or more conjunctions
/// joined by `OR`.
#[verifier::opaque]
pub open spec fn sp_expr(s: PState) -> Option<(ExprV, PState)>
    decreases st_m(s), 5int,
{
    match sp_and(s) {
        None => None,
        Some((left, s1)) => if 0 <= st_m(s1) < st_m(s) {
            sp_or_rest(left, s1)
        } else {
            None
        },
    }
}

/// One expected-kind step: the current token must have kind `k`; consume it.
pub open spec fn sp_kind(s: PState, k: TokenKind) -> Option<PState> {
    if kind_of(s.curr) == k {
        match st_next(s) {
            Some((_, s1)) => Some(s1),
            None => None,
        }
    } else {
        None
    }
}

/// One identifier step: the current token must be an identifier; consume it
/// and hand its name out.
pub open spec fn sp_ident(s: PState) -> Option<(Seq<char>, PState)> {
    match st_next(s) {
        Some((TokenV::Ident(nm), s1)) => Some((nm, s1)),
        _ => None,
    }
}

/// The optional `WHERE` clause: nothing when the current token is not
/// `WHERE`; otherwise the filter expression, as a one-entry clause list.
#[verifier::opaque]
pub open spec fn sp_where(s: PState) -> Option<(Seq<ClauseV>, PState)> {
    if s.curr is Where {
        match st_next(s) {
            None => None,
            Some((_, s1)) => match sp_expr(s1) {
                None => None,
                Some((e, s2)) => Some((seq![ClauseV::Where(Box::new(e))], s2)),
            },
        }
    } else {
        Some((Seq::empty(), s))
    }
}

/// The column-definition list of `CREATE`: `<name> <type>` pairs, each
/// followed by a comma to continue or a closing parenthesis to finish.
#[verifier::opaque]
pub open spec fn sp_defs_rest(acc: Seq<(Seq<char>, Seq<char>)>, s: PState) -> Option<
    (Seq<(Seq<char>, Seq<char>)>, PState),
>
    decreases st_m(s),
{
    match sp_ident(s) {
        None => None,
        Some((nm, s1)) => match sp_ident(s1) {
            None => None,
            Some((ty, s2)) => match st_next(s2) {
                None => None,
                Some((t, s3)) => if t is Comma {
                    if 0 <= st_m(s3) < st_m(s) {
                        sp_defs_rest(acc.push((nm, ty)), s3)
                    } else {
                        None
                    }
                } else if t is RParen {
                    Some((acc.push((nm, ty)), s3))
                } else {
                    None
                },
            },
        },
    }
}

/// A parenthesized column-name list: each name followed by a comma to
/// continue or a closing parenthesis to finish.
#[verifier::opaque]
pub open spec fn sp_cols_rest(acc: Seq<Seq<char>>, s: PState) -> Option<(Seq<Seq<char>>, PState)>
    decreases st_m(s),
{
    match sp_ident(s) {
        None => None,
        Some((nm, s1)) => match st_next(s1) {
            None => None,
            Some((t, s2)) => if t is Comma {
                if 0 <= st_m(s2) < st_m(s) {
                    sp_cols_rest(acc.push(nm), s2)
                } else {
                    None
                }
            } else if t is RParen {
                Some((acc.push(nm), s2))
            } else {
                None
            },
        },
    }
}

/// The value list of `INSERT`: expressions, each followed by a comma to
/// continue or a closing parenthesis to finish.
#[verifier::opaque]
pub open spec fn sp_vals_rest(acc: Seq<ExprV>, s: PState) -> Option<(Seq<ExprV>, PState)>
    decreases st_m(s),
{
    match sp_expr(s) {
        None => None,
        Some((e, s1)) => if 0 <= st_m(s1) <= st_m(s) {
            match st_next(s1) {
                None => None,
                Some((t, s2)) => if t is Comma {
                    if 0 <= st_m(s2) < st_m(s) {
                        sp_vals_rest(acc.push(e), s2)
                    } else {
                        None
                    }
                } else if t is RParen {
                    Some((acc.push(e), s2))
                } else {
                    None
                },
            }
        } else {
            None
        },
    }
}

/// The column list of `SELECT`: names joined by commas, no closing
/// delimiter; the list ends at the first token after a name that is not a
/// comma.
#[verifier::opaque]
pub open spec fn sp_sel_cols_rest(acc: Seq<Seq<char>>, s: PState) -> Option<
    (Seq<Seq<char>>, PState),
>
    decreases st_m(s),
{
    match sp_ident(s) {
        None => None,
        Some((nm, s1)) => if 0 <= st_m(s1) < st_m(s) {
            if s1.curr is Comma {
                match st_next(s1) {
                    None => None,
                    Some((_, s2)) => sp_sel_cols_rest(acc.push(nm), s2),
                }
            } else {
                Some((acc.push(nm), s1))
            }
        } else {
            None
        },
    }
}

/// The assignment list of `UPDATE`: `<col> = <expr>`, joined by commas, no
/// closing delimiter.
#[verifier::opaque]
pub open spec fn sp_assigns_rest(acc: Seq<(Seq<char>, ExprV)>, s: PState) -> Option<
    (Seq<(Seq<char>, ExprV)>, PState),
>
    decreases st_m(s),
{
    match sp_ident(s) {
        None => None,
        Some((col, s1)) => match sp_kind(s1, TokenKind::Eq) {
            None => None,
            Some(s2) => match sp_expr(s2) {
                None => None,
                Some((e, s3)) => if 0 <= st_m(s3) <= st_m(s) {
                    if s3.curr is Comma {
                        match st_next(s3) {
                            None => None,
                            Some((_, s4)) => if 0 <= st_m(s4) < st_m(s) {
                                sp_assigns_rest(acc.push((col, e)), s4)
                            } else {
                                None
                            },
                        }
                    } else {
                        Some((acc.push((col, e)), s3))
                    }
                } else {
                    None
                },
            },
        },
    }
}

/// The `CREATE TABLE` production.
#[verifier::opaque]
pub open spec fn sp_create(s: PState) -> Option<(StmtV, PState)> {
    match sp_kind(s, TokenKind::Create) {
        None => None,
        Some(s1) => match sp_kind(s1, TokenKind::Table) {
            None => None,
            Some(s2) => match sp_ident(s2) {
                None => None,
                Some((table, s3)) => match sp_kind(s3, TokenKind::LParen) {
                    None => None,
                    Some(s4) => match sp_defs_rest(Seq::empty(), s4) {
                        None => None,
                        Some((ds, s5)) => Some(
                            (
                                StmtV::Create {
                                    table,
                                    defs: Box::new(ClauseV::Defs(ds)),
                                    clauses: Seq::empty(),
                                },
                                s5,
                            ),
                        ),
                    },
                },
            },
        },
    }
}

/// The `INSERT INTO` production.
#[verifier::opaque]
pub open spec fn sp_insert(s: PState) -> Option<(StmtV, PState)> {
    match sp_kind(s, TokenKind::Insert) {
        None => None,
        Some(s1) => match sp_kind(s1, TokenKind::Into) {
            None => None,
            Some(s2) => match sp_ident(s2) {
                None => None,
                Some((table, s3)) => match (if s3.curr is LParen {
                    match st_next(s3) {
                        None => None,
                        Some((_, sl)) => sp_cols_rest(Seq::empty(), sl),
                    }
                } else {
                    Some((Seq::empty(), s3))
                }) {
                    None => None,
                    Some((cols, s4)) => match sp_kind(s4, TokenKind::Values) {
                        None => None,
                        Some(s5) => match sp_kind(s5, TokenKind::LParen) {
                            None => None,
                            Some(s6) => match sp_vals_rest(Seq::empty(), s6) {
                                None => None,
                                Some((vs, s7)) => Some(
                                    (
                                        StmtV::Insert {
                                            table,
                                            columns: Box::new(ClauseV::Columns(cols)),
                                            values: Box::new(ClauseV::Values(vs)),
                                            clauses: Seq::empty(),
                                        },
                                        s7,
                                    ),
                                ),
                            },
                        },
                    },
                },
            },
        },
    }
}

/// The `SELECT` production.
#[verifier::opaque]
pub open spec fn sp_select(s: PState) -> Option<(StmtV, PState)> {
    match sp_kind(s, TokenKind::Select) {
        None => None,
        Some(s1) => match (if s1.curr is Mul {
            match st_next(s1) {
                None => None,
                Some((_, s2)) => Some((seq!["*"@], s2)),
            }
        } else {
            sp_sel_cols_rest(Seq::empty(), s1)
        }) {
            None => None,
            Some((cols, s3)) => match sp_kind(s3, TokenKind::From) {
                None => None,
                Some(s4) => match sp_ident(s4) {
                    None => None,
                    Some((table, s5)) => match sp_where(s5) {
                        None => None,
                        Some((cw, s6)) => Some(
                            (
                                StmtV::Select {
                                    table,
                                    columns: Box::new(ClauseV::Columns(cols)),
                                    clauses: cw,
                                },
                                s6,
                            ),
                        ),
                    },
                },
            },
        },
    }
}

/// The `UPDATE` production.
#[verifier::opaque]
pub open spec fn sp_update(s: PState) -> Option<(StmtV, PState)> {
    match sp_kind(s, TokenKind::Update) {
        None => None,
        Some(s1) => match sp_ident(s1) {
            None => None,
            Some((table, s2)) => match sp_kind(s2, TokenKind::SetKw) {
                None => None,
                Some(s3) => match sp_assigns_rest(Seq::empty(), s3) {
                    None => None,
                    Some((asg, s4)) => match sp_where(s4) {
                        None => None,
                        Some((cw, s5)) => Some(
                            (
                                StmtV::Update {
                                    table,
                                    assigns: Box::new(ClauseV::Assigns(asg)),
                                    clauses: cw,
                                },
                                s5,
                            ),
                        ),
                    },
                },
            },
        },
    }
}

/// The `DELETE FROM` production.
#[verifier::opaque]
pub open spec fn sp_delete(s: PState) -> Option<(StmtV, PState)> {
    match sp_kind(s, TokenKind::Delete) {
        None => None,
        Some(s1) => match sp_kind(s1, TokenKind::From) {
            None => None,
            Some(s2) => match sp_ident(s2) {
                None => None,
                Some((table, s3)) => match sp_where(s3) {
                    None => None,
                    Some((cw, s4)) => Some((StmtV::Delete { table, clauses: cw }, s4)),
                },
            },
        },
    }
}

/// The `DROP TABLE` production.
#[verifier::opaque]
pub open spec fn sp_drop(s: PState) -> Option<(StmtV, PState)> {
    match sp_kind(s, TokenKind::Drop) {
        None => None,
        Some(s1) => match sp_kind(s1, TokenKind::Table) {
            None => None,
            Some(s2) => match sp_ident(s2) {
                None => None,
                Some((table, s3)) => Some((StmtV::Drop { table }, s3)),
            },
        },
    }
}

/// Statement dispatch: the current token's kind selects exactly one
/// production; any other leading token has no parse.
#[verifier::opaque]
pub open spec fn sp_stmt(s: PState) -> Option<(StmtV, PState)> {
    if s.curr is Create {
        sp_create(s)
    } else if s.curr is Insert {
        sp_insert(s)
    } else if s.curr is Select {
        sp_select(s)
    } else if s.curr is Update {
        sp_update(s)
    } else if s.curr is Delete {
        sp_delete(s)
    } else if s.curr is Drop {
        sp_drop(s)
    } else {
        None
    }
}

/// A statement sequence: statements until the terminating kind, any number
/// of bare separators skipped in between without producing anything.
#[verifier::opaque]
pub open spec fn sp_block(acc: Seq<StmtV>, s: PState, term: TokenKind) -> Option<
    (Seq<StmtV>, PState),
>
    decreases st_m(s),
{
    if kind_of(s.curr) == term {
        Some((acc, s))
    } else if s.curr is Semicolon {
        match st_next(s) {
            None => None,
            Some((_, s1)) => if 0 <= st_m(s1) < st_m(s) {
                sp_block(acc, s1, term)
            } else {
                None
            },
        }
    } else {
        match sp_stmt(s) {
            None => None,
            Some((x, s1)) => if 0 <= st_m(s1) < st_m(s) {
                sp_block(acc.push(x), s1, term)
            } else {
                None
            },
        }
    }
}

/// At most one clause, and then a filter: the shape of the optional `WHERE`.
pub open spec fn where_shape(cs: Seq<Clause>) -> bool {
    cs.len() <= 1 && (cs.len() == 1 ==> cs[0] is Where)
}

/// A statement the parser can actually hand out: every grammar-mandated
/// field populated, optional clauses defaulting to an empty sequence, and
/// only the clause variant its grammar rule builds. A union is part of the
/// data model but no parse path produces one yet.
pub open spec fn producible(s: Stmt) -> bool {
    match s {
        Stmt::Create { defs, clauses, .. } => (*defs) matches Clause::Defs(ds) && ds@.len() >= 1
            && clauses@.len() == 0,
        Stmt::Insert { columns, values, clauses, .. } => (*columns) is Columns && ((*values)
            matches Clause::Values(vs) && vs@.len() >= 1) && clauses@.len() == 0,
        Stmt::Select { columns, clauses, .. } => ((*columns) matches Clause::Columns(cols)
            && cols@.len() >= 1) && where_shape(clauses@),
        Stmt::Update { assigns, clauses, .. } => ((*assigns) matches Clause::Assigns(asg)
            && asg@.len() >= 1) && where_shape(clauses@),
        Stmt::Delete { clauses, .. } => where_shape(clauses@),
        Stmt::Drop { .. } => true,
        Stmt::Union { .. } => false,
    }
}

/// What `CREATE TABLE` hands out, seen from the parser state it started in:
/// the statement names the identifier token after the two keywords, its
/// definitions are non-empty, and no modifying clause is attached.
pub open spec fn create_shape(pre: Parser, s: Stmt) -> bool {
    &&& pre.spec_curr()@ is Create
    &&& pre.spec_peek()@ is Table
    &&& (spec_token_at(pre.src(), pre.lex_pos()) matches TokenStep::Tok(tv, q) && tv
        matches TokenV::Ident(nm) && (s matches Stmt::Create { table, defs, clauses } && table@
        == nm && ((*defs) matches Clause::Defs(ds) && ds@.len() >= 1) && clauses@.len() == 0))
}

/// What `INSERT INTO` hands out: the statement names the identifier token
/// after the two keywords, its value list is non-empty (the column list may
/// be empty: all columns in declaration order), and no modifying clause is
/// attached.
pub open spec fn insert_shape(pre: Parser, s: Stmt) -> bool {
    &&& pre.spec_curr()@ is Insert
    &&& pre.spec_peek()@ is Into
    &&& (spec_token_at(pre.src(), pre.lex_pos()) matches TokenStep::Tok(tv, q) && tv
        matches TokenV::Ident(nm) && (s matches Stmt::Insert { table, columns, values, clauses }
        && table@ == nm && (*columns) is Columns && ((*values) matches Clause::Values(vs)
        && vs@.len() >= 1) && clauses@.len() == 0))
}

/// What `SELECT` hands out: a non-empty column list — the single wildcard
/// marker when the token after `SELECT` is `*` — and at most one `WHERE`
/// clause.
pub open spec fn select_shape(pre: Parser, s: Stmt) -> bool {
    &&& pre.spec_curr()@ is Select
    &&& (s matches Stmt::Select { table, columns, clauses } && ((*columns)
        matches Clause::Columns(cols) && cols@.len() >= 1 && (pre.spec_peek()@ is Mul
        ==> cols@.len() == 1 && cols@[0]@ == "*"@)) && where_shape(clauses@))
}

/// What `UPDATE` hands out: the statement names the identifier token right
/// after the keyword, its assignment list is non-empty, and at most one
/// `WHERE` clause is attached.
pub open spec fn update_shape(pre: Parser, s: Stmt) -> bool {
    &&& pre.spec_curr()@ is Update
    &&& (pre.spec_peek()@ matches TokenV::Ident(nm) && (s
        matches Stmt::Update { table, assigns, clauses } && table@ == nm && ((*assigns)
        matches Clause::Assigns(asg) && asg@.len() >= 1) && where_shape(clauses@)))
}

/// What `DELETE FROM` hands out: the statement names the identifier token
/// after the two keywords and carries at most one `WHERE` clause; without
/// `WHERE` its clause list is empty.
pub open spec fn delete_shape(pre: Parser, s: Stmt) -> bool {
    &&& pre.spec_curr()@ is Delete
    &&& pre.spec_peek()@ is From
    &&& (spec_token_at(pre.src(), pre.lex_pos()) matches TokenStep::Tok(tv, q) && tv
        matches TokenV::Ident(nm) && (s matches Stmt::Delete { table, clauses } && table@ == nm
        && where_shape(clauses@)))
}

/// What `DROP TABLE` hands out: exactly the identifier token that follows
/// the two keywords.
pub open spec fn drop_shape(pre: Parser, s: Stmt) -> bool {
    &&& pre.spec_curr()@ is Drop
    &&& pre.spec_peek()@ is Table
    &&& (spec_token_at(pre.src(), pre.lex_pos()) matches TokenStep::Tok(tv, q) && tv
        matches TokenV::Ident(nm) && (s matches Stmt::Drop { table } && table@ == nm))
}

/// How the list-value functions act on an empty list and on a push: the
/// facts the loop proofs below rewrite with.
pub proof fn lemma_list_views()
    ensures
        forall|v: Seq<(String, String)>, p: (String, String)| #[trigger] defs_v(v.push(p))
            == defs_v(v).push((p.0@, p.1@)),
        forall|v: Seq<String>, c: String| #[trigger] cols_v(v.push(c)) == cols_v(v).push(c@),
        forall|v: Seq<Expr>, e: Expr| #[trigger] exprs_v(v.push(e)) == exprs_v(v).push(e@),
        forall|v: Seq<(String, Expr)>, p: (String, Expr)| #[trigger] assigns_v(v.push(p))
            == assigns_v(v).push((p.0@, p.1@)),
        forall|v: Seq<Clause>, c: Clause| #[trigger] clauses_v(v.push(c)) == clauses_v(v).push(c@),
        forall|v: Seq<Stmt>, x: Stmt| #[trigger] stmts_v(v.push(x)) == stmts_v(v).push(x@),
        defs_v(Seq::empty()) == Seq::<(Seq<char>, Seq<char>)>::empty(),
        cols_v(Seq::empty()) == Seq::<Seq<char>>::empty(),
        exprs_v(Seq::empty()) == Seq::<ExprV>::empty(),
        assigns_v(Seq::empty()) == Seq::<(Seq<char>, ExprV)>::empty(),
        clauses_v(Seq::empty()) == Seq::<ClauseV>::empty(),
        stmts_v(Seq::empty()) == Seq::<StmtV>::empty(),
{
    assert forall|v: Seq<(String, String)>, p: (String, String)| #[trigger] defs_v(v.push(p))
        == defs_v(v).push((p.0@, p.1@)) by {
        assert(defs_v(v.push(p)) =~= defs_v(v).push((p.0@, p.1@)));
    }
    assert forall|v: Seq<String>, c: String| #[trigger] cols_v(v.push(c)) == cols_v(v).push(
        c@,
    ) by {
        assert(cols_v(v.push(c)) =~= cols_v(v).push(c@));
    }
    assert forall|v: Seq<Expr>, e: Expr| #[trigger] exprs_v(v.push(e)) == exprs_v(v).push(e@) by {
        assert(exprs_v(v.push(e)) =~= exprs_v(v).push(e@));
    }
    assert forall|v: Seq<(String, Expr)>, p: (String, Expr)| #[trigger] assigns_v(v.push(p))
        == assigns_v(v).push((p.0@, p.1@)) by {
        assert(assigns_v(v.push(p)) =~= assigns_v(v).push((p.0@, p.1@)));
    }
    assert forall|v: Seq<Clause>, c: Clause| #[trigger] clauses_v(v.push(c)) == clauses_v(v).push(
        c@,
    ) by {
        assert(clauses_v(v.push(c)) =~= clauses_v(v).push(c@));
    }
    assert forall|v: Seq<Stmt>, x: Stmt| #[trigger] stmts_v(v.push(x)) == stmts_v(v).push(x@) by {
        assert(stmts_v(v.push(x)) =~= stmts_v(v).push(x@));
    }
    assert(defs_v(Seq::empty()) =~= Seq::<(Seq<char>, Seq<char>)>::empty());
    assert(cols_v(Seq::empty()) =~= Seq::<Seq<char>>::empty());
    assert(exprs_v(Seq::empty()) =~= Seq::<ExprV>::empty());
    assert(assigns_v(Seq::empty()) =~= Seq::<(Seq<char>, ExprV)>::empty());
    assert(clauses_v(Seq::empty()) =~= Seq::<ClauseV>::empty());
    assert(stmts_v(Seq::empty()) =~= Seq::<StmtV>::empty());
}

/// The recursive-descent engine: the lexer, the current token, and one token
/// of lookahead. Construction primes both tokens; instances are not shared
/// between parses.
pub struct Parser {
    lexer: Lexer,
    curr: Token,
    peek: Token,
}

impl Parser {
    /// The query text being parsed.
    pub closed spec fn src(&self) -> Seq<char> {
        self.lexer.src()
    }

    /// The lexer's scan position.
    pub closed spec fn lex_pos(&self) -> int {
        self.lexer.spec_pos()
    }

    /// The token under consideration.
    pub closed spec fn spec_curr(&self) -> Token {
        self.curr
    }

    /// The one token of lookahead.
    pub closed spec fn spec_peek(&self) -> Token {
        self.peek
    }

    /// The scan position stays within the text.
    pub closed spec fn wf(&self) -> bool {
        self.lexer.wf()
    }

    /// Unconsumed input: text still to scan plus the weight of the two
    /// buffered tokens. Every token consumed strictly shrinks it, which
    /// bounds every loop and recursion of the parser.
    pub closed spec fn measure(&self) -> int {
        self.src().len() - self.lex_pos() + tok_w(self.curr@) + tok_w(self.peek@)
    }

    /// This parser's window over the token stream, as a spec-level state.
    pub closed spec fn st(&self) -> PState {
        PState { text: self.src(), pos: self.lex_pos(), curr: self.curr@, peek: self.peek@ }
    }

    /// A parser over `lexer`, primed with the first two tokens; the only
    /// point where lexing faults can surface during setup.
    pub fn new(lexer: Lexer) -> (r: Result<Parser, QueryErr>)
        requires
            lexer.wf(),
        ensures
            r matches Ok(p) ==> {
                &&& p.wf()
                &&& p.src() == lexer.src()
                &&& (spec_token_at(lexer.src(), lexer.spec_pos()) matches TokenStep::Tok(t0, q0)
                    && p.spec_curr()@ == t0 && (spec_token_at(lexer.src(), q0)
                    matches TokenStep::Tok(t1, q1) && p.spec_peek()@ == t1 && p.lex_pos() == q1))
            },
            r matches Err(e) ==> (e matches QueryErr::BadChar { .. } || e
                matches QueryErr::UnterminatedText { .. }),
            match spec_token_at(lexer.src(), lexer.spec_pos()) {
                TokenStep::BadChar(i) => r matches Err(e) && e matches QueryErr::BadChar { pos, ch } && pos == i && ch == lexer.src()[i],
                TokenStep::Unterminated(i) => r matches Err(e) && e matches QueryErr::UnterminatedText { pos } && pos == i,
                TokenStep::Tok(t0, q0) => match spec_token_at(lexer.src(), q0) {
                    TokenStep::BadChar(i) => r matches Err(e) && e matches QueryErr::BadChar { pos, ch } && pos == i && ch == lexer.src()[i],
                    TokenStep::Unterminated(i) => r matches Err(e) && e matches QueryErr::UnterminatedText { pos } && pos == i,
                    TokenStep::Tok(t1, q1) => r is Ok,
                },
            },
    {
        let mut lx = lexer;
        let curr = lx.next()?;
        let peek = lx.next()?;
        Ok(Parser { lexer: lx, curr, peek })
    }

    /// Consume the current token: hand it back, move the lookahead up, and
    /// lex one fresh token into the lookahead slot.
    fn next(&mut self) -> (r: Result<Token, QueryErr>)
        requires
            old(self).wf(),
        ensures
            final(self).wf(),
            final(self).src() == old(self).src(),
            final(self).measure() <= old(self).measure(),
            r matches Ok(t) ==> {
                &&& t == old(self).spec_curr()
                &&& final(self).spec_curr() == old(self).spec_peek()
                &&& (spec_token_at(old(self).src(), old(self).lex_pos())
                    matches TokenStep::Tok(tv, q) && final(self).spec_peek()@ == tv && final(self).lex_pos() == q)
            },
            r is Ok && !(old(self).spec_curr()@ is Eof) ==> final(self).measure() < old(self).measure(),
            r is Err ==> final(self).spec_curr() == old(self).spec_curr() && final(self).spec_peek() == old(self).spec_peek(),
            r matches Err(e) ==> (e matches QueryErr::BadChar { .. } || e
                matches QueryErr::UnterminatedText { .. }),
            spec_token_at(old(self).src(), old(self).lex_pos()) is Tok ==> r is Ok,
            r matches Ok(t) ==> st_next(old(self).st()) == Some((t@, final(self).st())),
            st_next(old(self).st()) is Some ==> r is Ok,
    {
        proof {
            lemma_token_at_bounds(self.lexer.src(), self.lexer.spec_pos());
        }
        let t = self.lexer.next()?;
        let mut tok = t;
        core::mem::swap(&mut self.peek, &mut tok);
        core::mem::swap(&mut self.curr, &mut tok);
        Ok(tok)
    }

    /// Assert that the current token has the requested kind and consume it;
    /// otherwise fail, naming the expected kind and the token found, and
    /// leave the state untouched.
    fn expect(&mut self, kind: TokenKind) -> (r: Result<(), QueryErr>)
        requires
            old(self).wf(),
        ensures
            final(self).wf(),
            final(self).src() == old(self).src(),
            final(self).measure() <= old(self).measure(),
            r is Ok ==> old(self).spec_curr().spec_kind() == kind,
            old(self).spec_curr().spec_kind() != kind ==> (r matches Err(e) && e
                matches QueryErr::UnexpectedToken { expected, found } && expected
                == Expected::Kind(kind) && found == old(self).spec_curr() && *final(self) == *old(self)),
            r is Ok ==> {
                &&& final(self).spec_curr() == old(self).spec_peek()
                &&& (spec_token_at(old(self).src(), old(self).lex_pos())
                    matches TokenStep::Tok(tv, q) && final(self).spec_peek()@ == tv && final(self).lex_pos() == q)
            },
            r is Ok && kind != TokenKind::Eof ==> final(self).measure() < old(self).measure(),
            r is Err && old(self).spec_curr().spec_kind() == kind ==> (r matches Err(e) && (e
                matches QueryErr::BadChar { .. } || e matches QueryErr::UnterminatedText { .. })),
            old(self).spec_curr().spec_kind() == kind && spec_token_at(
                old(self).src(),
                old(self).lex_pos(),
            ) is Tok ==> r is Ok,
            r is Ok ==> st_next(old(self).st()) == Some((old(self).spec_curr()@, final(self).st())),
            old(self).spec_curr().spec_kind() == kind && st_next(old(self).st()) is Some ==> r
                is Ok,
    {
        if self.curr.kind() == kind {
            self.next()?;
            Ok(())
        } else {
            Err(
                QueryErr::UnexpectedToken {
                    expected: Expected::Kind(kind),
                    found: self.curr.dup(),
                },
            )
        }
    }

    /// Like `expect`, but a mismatch answers `false` instead of failing;
    /// used for optional and repeated constructs.
    fn maybe(&mut self, kind: TokenKind) -> (r: Result<bool, QueryErr>)
        requires
            old(self).wf(),
        ensures
            final(self).wf(),
            final(self).src() == old(self).src(),
            final(self).measure() <= old(self).measure(),
            old(self).spec_curr().spec_kind() != kind ==> (r matches Ok(b) && b == false
                && *final(self) == *old(self)),
            r matches Ok(b) && !b ==> old(self).spec_curr().spec_kind() != kind && *final(self)
                == *old(self),
            r matches Ok(b) && b ==> old(self).spec_curr().spec_kind() == kind,
            r matches Ok(b) && b ==> {
                &&& final(self).spec_curr() == old(self).spec_peek()
                &&& (spec_token_at(old(self).src(), old(self).lex_pos())
                    matches TokenStep::Tok(tv, q) && final(self).spec_peek()@ == tv && final(self).lex_pos() == q)
            },
            r matches Ok(b) && b && kind != TokenKind::Eof ==> final(self).measure() < old(self).measure(),
            r matches Err(e) ==> (e matches QueryErr::BadChar { .. } || e
                matches QueryErr::UnterminatedText { .. }),
            old(self).spec_curr().spec_kind() != kind || spec_token_at(
                old(self).src(),
                old(self).lex_pos(),
            ) is Tok ==> r is Ok,
            r matches Ok(b) && b ==> st_next(old(self).st()) == Some((
                old(self).spec_curr()@,
                final(self).st(),
            )),
            old(self).spec_curr().spec_kind() != kind || st_next(old(self).st()) is Some ==> r
                is Ok,
    {
        if self.curr.kind() == kind {
            self.next()?;
            Ok(true)
        } else {
            Ok(false)
        }
    }

    /// Consume the current token and hand back the name it carries; any
    /// token other than an identifier is an error naming the identifier
    /// class and the token found.
    fn consume_ident(&mut self) -> (r: Result<String, QueryErr>)
        requires
            old(self).wf(),
        ensures
            final(self).wf(),
            final(self).src() == old(self).src(),
            final(self).measure() <= old(self).measure(),
            r matches Ok(name) ==> {
                &&& old(self).spec_curr()@ matches TokenV::Ident(nm) && name@ == nm
                &&& final(self).spec_curr() == old(self).spec_peek()
                &&& (spec_token_at(old(self).src(), old(self).lex_pos())
                    matches TokenStep::Tok(tv, q) && final(self).spec_peek()@ == tv && final(self).lex_pos() == q)
                &&& final(self).measure() < old(self).measure()
            },
            !(old(self).spec_curr()@ is Ident) ==> r is Err,
            r matches Err(e) ==> (e matches QueryErr::UnexpectedToken { expected, found }
                && expected == Expected::Ident && found == old(self).spec_curr() || e
                matches QueryErr::BadChar { .. } || e matches QueryErr::UnterminatedText { .. }),
            old(self).spec_curr()@ is Ident && spec_token_at(
                old(self).src(),
                old(self).lex_pos(),
            ) is Tok ==> r is Ok,
            r matches Ok(name) ==> st_next(old(self).st()) == Some((
                TokenV::Ident(name@),
                final(self).st(),
            )),
            old(self).spec_curr()@ is Ident && st_next(old(self).st()) is Some ==> r is Ok,
            !(old(self).spec_curr()@ is Ident) && st_next(old(self).st()) is Some ==> (r
                matches Err(e) && e matches QueryErr::UnexpectedToken { expected, found }
                && expected == Expected::Ident && found == old(self).spec_curr() && st_next(
                old(self).st(),
            ) == Some((old(self).spec_curr()@, final(self).st()))),
    {
        let tok = self.next()?;
        match tok {
            Token::Ident(name) => Ok(name),
            other => Err(QueryErr::UnexpectedToken { expected: Expected::Ident, found: other }),
        }
    }

    /// Parse statements until the end of the input, skipping any number of
    /// bare statement separators between, before, or after them; separators
    /// produce no empty statements. On success the whole input has been
    /// consumed through the end-of-input marker.
    pub fn parse(&mut self) -> (r: Result<Vec<Stmt>, QueryErr>)
        requires
            old(self).wf(),
        ensures
            final(self).wf(),
            final(self).src() == old(self).src(),
            final(self).measure() <= old(self).measure(),
            r is Ok ==> final(self).spec_curr()@ is Eof,
            r matches Ok(v) ==> forall|i: int|
                0 <= i < v@.len() ==> #[trigger] producible(v@[i]),
            r matches Ok(v) ==> sp_block(Seq::empty(), old(self).st(), TokenKind::Eof) == Some((
                stmts_v(v@),
                final(self).st(),
            )),
            sp_block(Seq::empty(), old(self).st(), TokenKind::Eof) is Some ==> r is Ok,
    {
        self.parse_block(TokenKind::Eof)
    }

    /// Parse statements, skipping separators, until the current token has
    /// the terminating kind.
    #[verifier::loop_isolation(false)]
    fn parse_block(&mut self, term: TokenKind) -> (r: Result<Vec<Stmt>, QueryErr>)
        requires
            old(self).wf(),
        ensures
            final(self).wf(),
            final(self).src() == old(self).src(),
            final(self).measure() <= old(self).measure(),
            r is Ok ==> final(self).spec_curr().spec_kind() == term,
            r matches Ok(v) ==> forall|i: int|
                0 <= i < v@.len() ==> #[trigger] producible(v@[i]),
            r matches Ok(v) ==> sp_block(Seq::empty(), old(self).st(), term) == Some((
                stmts_v(v@),
                final(self).st(),
            )),
            sp_block(Seq::empty(), old(self).st(), term) is Some ==> r is Ok,
    {
        proof {
            lemma_list_views();
        }
        reveal_with_fuel(sp_block, 1);
        let mut stmts: Vec<Stmt> = Vec::new();
        while self.curr.kind() != term
            invariant
                self.wf(),
                self.src() == old(self).src(),
                self.measure() <= old(self).measure(),
                forall|i: int| 0 <= i < stmts@.len() ==> #[trigger] producible(stmts@[i]),
                sp_block(Seq::empty(), old(self).st(), term) == sp_block(
                    stmts_v(stmts@),
                    self.st(),
                    term,
                ),
            decreases self.measure(),
        {
            proof {
                lemma_list_views();
            }
            reveal_with_fuel(sp_block, 1);
            if self.curr.kind() == TokenKind::Semicolon {
                self.next()?;
            } else {
                let stmt = self.parse_stmt()?;
                stmts.push(stmt);
            }
        }
        Ok(stmts)
    }

    /// Dispatch on the current token's kind to the one statement grammar it
    /// can begin; any other leading token is an error naming the statement
    /// class.
    pub fn parse_stmt(&mut self) -> (r: Result<Stmt, QueryErr>)
        requires
            old(self).wf(),
        ensures
            final(self).wf(),
            final(self).src() == old(self).src(),
            final(self).measure() <= old(self).measure(),
            r is Ok ==> final(self).measure() < old(self).measure(),
            r is Ok ==> starts_stmt(old(self).spec_curr()@),
            r matches Ok(s) ==> producible(s),
            r matches Ok(s) ==> (old(self).spec_curr()@ is Create ==> create_shape(
                *old(self),
                s,
            )),
            r matches Ok(s) ==> (old(self).spec_curr()@ is Insert ==> insert_shape(
                *old(self),
                s,
            )),
            r matches Ok(s) ==> (old(self).spec_curr()@ is Select ==> select_shape(
                *old(self),
                s,
            )),
            r matches Ok(s) ==> (old(self).spec_curr()@ is Update ==> update_shape(
                *old(self),
                s,
            )),
            r matches Ok(s) ==> (old(self).spec_curr()@ is Delete ==> delete_shape(
                *old(self),
                s,
            )),
            r matches Ok(s) ==> (old(self).spec_curr()@ is Drop ==> drop_shape(*old(self), s)),
            !starts_stmt(old(self).spec_curr()@) ==> (r matches Err(e) && e
                matches QueryErr::UnexpectedToken { expected, found } && expected == Expected::Stmt
                && found == old(self).spec_curr() && *final(self) == *old(self)),
            r matches Ok(s) ==> sp_stmt(old(self).st()) == Some((s@, final(self).st())),
            sp_stmt(old(self).st()) is Some ==> r is Ok,
            r matches Err(e) && stmt_class_err(e) ==> !starts_stmt(old(self).spec_curr()@)
                && *final(self) == *old(self),
    {
        reveal_with_fuel(sp_stmt, 1);
        let k = self.curr.kind();
        if k == TokenKind::Create {
            self.parse_create()
        } else if k == TokenKind::Insert {
            self.parse_insert()
        } else if k == TokenKind::Select {
            self.parse_select()
        } else if k == TokenKind::Update {
            self.parse_update()
        } else if k == TokenKind::Delete {
            self.parse_delete()
        } else if k == TokenKind::Drop {
            self.parse_drop()
        } else {
            Err(QueryErr::UnexpectedToken { expected: Expected::Stmt, found: self.curr.dup() })
        }
    }

    /// `CREATE TABLE <table> ( <col> <type> {, <col> <type>} )`. On success
    /// the table name is the identifier token that follows the two keywords,
    /// the definitions are non-empty, and no modifying clause is attached.
    #[verifier::loop_isolation(false)]
    fn parse_create(&mut self) -> (r: Result<Stmt, QueryErr>)
        requires
            old(self).wf(),
        ensures
            final(self).wf(),
            final(self).src() == old(self).src(),
            final(self).measure() <= old(self).measure(),
            r is Ok ==> final(self).measure() < old(self).measure(),
            r matches Ok(s) ==> create_shape(*old(self), s) && producible(s),
            r matches Ok(s) ==> sp_create(old(self).st()) == Some((s@, final(self).st())),
            sp_create(old(self).st()) is Some ==> r is Ok,
            r matches Err(e) ==> !stmt_class_err(e),
    {
        reveal_with_fuel(sp_create, 1);
        reveal_with_fuel(sp_defs_rest, 1);
        proof {
            lemma_list_views();
        }
        self.expect(TokenKind::Create)?;
        self.expect(TokenKind::Table)?;
        let table = self.consume_ident()?;
        self.expect(TokenKind::LParen)?;
        let ghost s_list = self.st();
        let mut columns: Vec<(String, String)> = Vec::new();
        let mut done = false;
        while !done
            invariant
                self.wf(),
                self.src() == old(self).src(),
                self.measure() < old(self).measure(),
                done ==> columns@.len() >= 1,
                sp_defs_rest(Seq::empty(), s_list) == (if done {
                    Option::Some((defs_v(columns@), self.st()))
                } else {
                    sp_defs_rest(defs_v(columns@), self.st())
                }),
            decreases self.measure(),
        {
            proof {
                lemma_list_views();
            }
            reveal_with_fuel(sp_defs_rest, 1);
            let col_name = self.consume_ident()?;
            let col_type = self.consume_ident()?;
            columns.push((col_name, col_type));
            let tok = self.next()?;
            let k = tok.kind();
            if k == TokenKind::Comma {
                // the list continues
            } else if k == TokenKind::RParen {
                done = true;
            } else {
                return Err(
                    QueryErr::UnexpectedToken { expected: Expected::CommaOrRParen, found: tok },
                );
            }
        }
        Ok(Stmt::Create { table, defs: Clause::Defs(columns).boxed(), clauses: Vec::new() })
    }

    /// A parenthesized column-name list whose opening parenthesis is already
    /// consumed: names separated by commas, closed by a right parenthesis.
    #[verifier::loop_isolation(false)]
    fn parse_col_list(&mut self) -> (r: Result<Vec<String>, QueryErr>)
        requires
            old(self).wf(),
        ensures
            final(self).wf(),
            final(self).src() == old(self).src(),
            final(self).measure() <= old(self).measure(),
            r is Ok ==> final(self).measure() < old(self).measure(),
            r matches Ok(v) ==> sp_cols_rest(Seq::empty(), old(self).st()) == Some((
                cols_v(v@),
                final(self).st(),
            )),
            sp_cols_rest(Seq::empty(), old(self).st()) is Some ==> r is Ok,
            r matches Err(e) ==> !stmt_class_err(e),
            st_next(old(self).st()) matches Some((t0, s1)) ==> (old(self).spec_curr()@ is Ident
                && st_next(s1) is Some && !(s1.curr is Comma) && !(s1.curr is RParen) ==> (r
                matches Err(e) && e matches QueryErr::UnexpectedToken { expected, found }
                && expected == Expected::CommaOrRParen && found@ == s1.curr)),
    {
        reveal_with_fuel(sp_cols_rest, 1);
        proof {
            lemma_list_views();
        }
        let mut columns: Vec<String> = Vec::new();
        let mut done = false;
        while !done
            invariant
                self.wf(),
                self.src() == old(self).src(),
                self.measure() <= old(self).measure(),
                done ==> self.measure() < old(self).measure(),
                sp_cols_rest(Seq::empty(), old(self).st()) == (if done {
                    Option::Some((cols_v(columns@), self.st()))
                } else {
                    sp_cols_rest(cols_v(columns@), self.st())
                }),
                st_next(old(self).st()) matches Some((t0, s1)) ==> (st_next(s1) is Some && !(
                s1.curr is Comma) && !(s1.curr is RParen) ==> *self == *old(self)),
            decreases self.measure(),
        {
            proof {
                lemma_list_views();
            }
            reveal_with_fuel(sp_cols_rest, 1);
            let col = self.consume_ident()?;
            columns.push(col);
            let tok = self.next()?;
            let k = tok.kind();
            if k == TokenKind::Comma {
                // the list continues
            } else if k == TokenKind::RParen {
                done = true;
            } else {
                return Err(
                    QueryErr::UnexpectedToken { expected: Expected::CommaOrRParen, found: tok },
                );
            }
        }
        Ok(columns)
    }

    /// A parenthesized value list whose opening parenthesis is already
    /// consumed: expressions separated by commas, closed by a right
    /// parenthesis; never empty.
    #[verifier::rlimit(100)]
    #[verifier::loop_isolation(false)]
    fn parse_value_list(&mut self) -> (r: Result<Vec<Expr>, QueryErr>)
        requires
            old(self).wf(),
        ensures
            final(self).wf(),
            final(self).src() == old(self).src(),
            final(self).measure() <= old(self).measure(),
            r is Ok ==> final(self).measure() < old(self).measure(),
            r matches Ok(v) ==> v@.len() >= 1,
            r matches Ok(v) ==> sp_vals_rest(Seq::empty(), old(self).st()) == Some((
                exprs_v(v@),
                final(self).st(),
            )),
            sp_vals_rest(Seq::empty(), old(self).st()) is Some ==> r is Ok,
            r matches Err(e) ==> !stmt_class_err(e),
    {
        proof {
            lemma_list_views();
        }
        reveal_with_fuel(sp_vals_rest, 1);
        let mut values: Vec<Expr> = Vec::new();
        let mut done = false;
        while !done
            invariant
                self.wf(),
                self.src() == old(self).src(),
                self.measure() <= old(self).measure(),
                done ==> self.measure() < old(self).measure(),
                done ==> values@.len() >= 1,
                sp_vals_rest(Seq::empty(), old(self).st()) == (if done {
                    Option::Some((exprs_v(values@), self.st()))
                } else {
                    sp_vals_rest(exprs_v(values@), self.st())
                }),
            decreases self.measure(),
        {
            proof {
                lemma_list_views();
            }
            reveal_with_fuel(sp_vals_rest, 1);
            let value = self.parse_expr()?;
            values.push(value);
            let tok = self.next()?;
            let k = tok.kind();
            if k == TokenKind::Comma {
                // the list continues
            } else if k == TokenKind::RParen {
                done = true;
            } else {
                return Err(
                    QueryErr::UnexpectedToken { expected: Expected::CommaOrRParen, found: tok },
                );
            }
        }
        Ok(values)
    }

    /// `INSERT INTO <table> [( <col> {, <col>} )] VALUES ( <expr> {, <expr>} )`.
    /// On success the table name is the identifier token after the two
    /// keywords, the value list is non-empty (the column list may be empty:
    /// all columns in declaration order), and no modifying clause is
    /// attached.
    #[verifier::rlimit(100)]
    fn parse_insert(&mut self) -> (r: Result<Stmt, QueryErr>)
        requires
            old(self).wf(),
        ensures
            final(self).wf(),
            final(self).src() == old(self).src(),
            final(self).measure() <= old(self).measure(),
            r is Ok ==> final(self).measure() < old(self).measure(),
            r matches Ok(s) ==> insert_shape(*old(self), s) && producible(s),
            r matches Ok(s) ==> sp_insert(old(self).st()) == Some((s@, final(self).st())),
            sp_insert(old(self).st()) is Some ==> r is Ok,
            r matches Err(e) ==> !stmt_class_err(e),
    {
        proof {
            lemma_list_views();
        }
        reveal_with_fuel(sp_insert, 1);
        self.expect(TokenKind::Insert)?;
        self.expect(TokenKind::Into)?;
        let table = self.consume_ident()?;
        let mut columns: Vec<String> = Vec::new();
        if self.maybe(TokenKind::LParen)? {
            columns = self.parse_col_list()?;
        } else {
            proof {
                lemma_list_views();
            }
        }
        self.expect(TokenKind::Values)?;
        self.expect(TokenKind::LParen)?;
        let values = self.parse_value_list()?;
        Ok(
            Stmt::Insert {
                table,
                columns: Clause::Columns(columns).boxed(),
                values: Clause::Values(values).boxed(),
                clauses: Vec::new(),
            },
        )
    }

    /// `SELECT ( * | <col> {, <col>} ) FROM <table> [WHERE <expr>]`. A bare
    /// `*` materializes as the single-element column list `["*"]` — a
    /// parser-level convention, not a distinct tree shape. On success the
    /// column list is non-empty and at most one `WHERE` clause is attached.
    #[verifier::rlimit(100)]
    #[verifier::loop_isolation(false)]
    fn parse_select(&mut self) -> (r: Result<Stmt, QueryErr>)
        requires
            old(self).wf(),
        ensures
            final(self).wf(),
            final(self).src() == old(self).src(),
            final(self).measure() <= old(self).measure(),
            r is Ok ==> final(self).measure() < old(self).measure(),
            r matches Ok(s) ==> select_shape(*old(self), s) && producible(s),
            r matches Ok(s) ==> sp_select(old(self).st()) == Some((s@, final(self).st())),
            sp_select(old(self).st()) is Some ==> r is Ok,
            r matches Err(e) ==> !stmt_class_err(e),
            (old(self).spec_curr()@ is Select && !(old(self).spec_peek()@ is Mul) && !(old(
                self,
            ).spec_peek()@ is Ident)) && (st_next(old(self).st()) matches Some((_, s1))
                && st_next(s1) is Some) ==> (r matches Err(e) && e
                matches QueryErr::UnexpectedToken { expected, found } && expected
                == Expected::Ident && found == old(self).spec_peek()),
    {
        reveal_with_fuel(sp_select, 1);
        reveal_with_fuel(sp_sel_cols_rest, 1);
        proof {
            lemma_list_views();
        }
        self.expect(TokenKind::Select)?;
        let ghost s_cols = self.st();
        let mut columns: Vec<String> = Vec::new();
        if self.curr.kind() == TokenKind::Mul {
            self.next()?;
            columns.push("*".to_owned());
            proof {
                assert(cols_v(columns@) =~= seq!["*"@]);
            }
        } else {
            let mut more = true;
            while more
                invariant
                    self.wf(),
                    self.src() == old(self).src(),
                    self.measure() < old(self).measure(),
                    !(old(self).spec_peek()@ is Mul),
                    !more ==> columns@.len() >= 1,
                    (if more {
                        sp_sel_cols_rest(cols_v(columns@), self.st())
                    } else {
                        Option::Some((cols_v(columns@), self.st()))
                    }) == sp_sel_cols_rest(Seq::empty(), s_cols),
                    old(self).spec_curr()@ is Select && !(old(self).spec_peek()@ is Ident) ==> (
                    self.spec_curr() == old(self).spec_peek() && st_next(old(self).st()) == Some(
                        (old(self).spec_curr()@, self.st()),
                    )),
                decreases self.measure(),
            {
                proof {
                    lemma_list_views();
                }
                reveal_with_fuel(sp_sel_cols_rest, 1);
                let col = self.consume_ident()?;
                columns.push(col);
                more = self.maybe(TokenKind::Comma)?;
            }
        }
        self.expect(TokenKind::From)?;
        let table = self.consume_ident()?;
        let clauses = self.parse_where()?;
        Ok(Stmt::Select { table, columns: Clause::Columns(columns).boxed(), clauses })
    }

    /// `UPDATE <table> SET <col> = <expr> {, <col> = <expr>} [WHERE <expr>]`.
    /// On success the table name is the identifier token right after the
    /// keyword, the assignment list is non-empty, and at most one `WHERE`
    /// clause is attached.
    #[verifier::rlimit(100)]
    #[verifier::loop_isolation(false)]
    fn parse_update(&mut self) -> (r: Result<Stmt, QueryErr>)
        requires
            old(self).wf(),
        ensures
            final(self).wf(),
            final(self).src() == old(self).src(),
            final(self).measure() <= old(self).measure(),
            r is Ok ==> final(self).measure() < old(self).measure(),
            r matches Ok(s) ==> update_shape(*old(self), s) && producible(s),
            r matches Ok(s) ==> sp_update(old(self).st()) == Some((s@, final(self).st())),
            sp_update(old(self).st()) is Some ==> r is Ok,
            r matches Err(e) ==> !stmt_class_err(e),
    {
        reveal_with_fuel(sp_update, 1);
        reveal_with_fuel(sp_assigns_rest, 1);
        proof {
            lemma_list_views();
        }
        self.expect(TokenKind::Update)?;
        let table = self.consume_ident()?;
        self.expect(TokenKind::SetKw)?;
        let ghost s_asg = self.st();
        let mut assigns: Vec<(String, Expr)> = Vec::new();
        let mut more = true;
        while more
            invariant
                self.wf(),
                self.src() == old(self).src(),
                self.measure() < old(self).measure(),
                !more ==> assigns@.len() >= 1,
                (if more {
                    sp_assigns_rest(assigns_v(assigns@), self.st())
                } else {
                    Option::Some((assigns_v(assigns@), self.st()))
                }) == sp_assigns_rest(Seq::empty(), s_asg),
            decreases self.measure(),
        {
            proof {
                lemma_list_views();
            }
            reveal_with_fuel(sp_assigns_rest, 1);
            let col = self.consume_ident()?;
            self.expect(TokenKind::Eq)?;
            let val = self.parse_expr()?;
            assigns.push((col, val));
            more = self.maybe(TokenKind::Comma)?;
        }
        let clauses = self.parse_where()?;
        Ok(Stmt::Update { table, assigns: Clause::Assigns(assigns).boxed(), clauses })
    }

    /// The optional `WHERE` clause shared by the filtering statements:
    /// nothing when the current token is not `WHERE`, otherwise a one-entry
    /// clause list holding the filter expression.
    fn parse_where(&mut self) -> (r: Result<Vec<Clause>, QueryErr>)
        requires
            old(self).wf(),
        ensures
            final(self).wf(),
            final(self).src() == old(self).src(),
            final(self).measure() <= old(self).measure(),
            r matches Ok(v) ==> sp_where(old(self).st()) == Some((clauses_v(v@), final(self).st())),
            sp_where(old(self).st()) is Some ==> r is Ok,
            r matches Ok(v) ==> where_shape(v@),
            r matches Err(e) ==> !stmt_class_err(e),
    {
        reveal_with_fuel(sp_where, 1);
        proof {
            lemma_list_views();
        }
        let mut clauses: Vec<Clause> = Vec::new();
        if self.maybe(TokenKind::Where)? {
            let cond = self.parse_expr()?;
            clauses.push(Clause::Where(cond.boxed()));
            proof {
                assert(clauses_v(clauses@) =~= seq![ClauseV::Where(Box::new(cond@))]);
            }
        }
        Ok(clauses)
    }

    /// `DELETE FROM <table> [WHERE <expr>]`. On success the table name is
    /// the identifier token after the two keywords and at most one `WHERE`
    /// clause is attached; without `WHERE` the clause list is empty.
    fn parse_delete(&mut self) -> (r: Result<Stmt, QueryErr>)
        requires
            old(self).wf(),
        ensures
            final(self).wf(),
            final(self).src() == old(self).src(),
            final(self).measure() <= old(self).measure(),
            r is Ok ==> final(self).measure() < old(self).measure(),
            r matches Ok(s) ==> delete_shape(*old(self), s) && producible(s),
            r matches Ok(s) ==> sp_delete(old(self).st()) == Some((s@, final(self).st())),
            sp_delete(old(self).st()) is Some ==> r is Ok,
            r matches Err(e) ==> !stmt_class_err(e),
    {
        reveal_with_fuel(sp_delete, 1);
        proof {
            lemma_list_views();
        }
        self.expect(TokenKind::Delete)?;
        self.expect(TokenKind::From)?;
        let table = self.consume_ident()?;
        let clauses = self.parse_where()?;
        Ok(Stmt::Delete { table, clauses })
    }

    /// `DROP TABLE <table>`. On success the statement names exactly the
    /// identifier token that follows the two keywords.
    fn parse_drop(&mut self) -> (r: Result<Stmt, QueryErr>)
        requires
            old(self).wf(),
        ensures
            final(self).wf(),
            final(self).src() == old(self).src(),
            final(self).measure() <= old(self).measure(),
            r is Ok ==> final(self).measure() < old(self).measure(),
            r matches Ok(s) ==> drop_shape(*old(self), s) && producible(s),
            r matches Ok(s) ==> sp_drop(old(self).st()) == Some((s@, final(self).st())),
            sp_drop(old(self).st()) is Some ==> r is Ok,
            r matches Err(e) ==> !stmt_class_err(e),
    {
        reveal_with_fuel(sp_drop, 1);
        self.expect(TokenKind::Drop)?;
        self.expect(TokenKind::Table)?;
        let table = self.consume_ident()?;
        Ok(Stmt::Drop { table })
    }

    /// An expression: the lowest-precedence production.
    fn parse_expr(&mut self) -> (r: Result<Expr, QueryErr>)
        requires
            old(self).wf(),
        ensures
            final(self).wf(),
            final(self).src() == old(self).src(),
            final(self).measure() <= old(self).measure(),
            r is Ok ==> final(self).measure() < old(self).measure(),
            r is Ok ==> final(self).spec_curr().spec_kind() != TokenKind::Or && final(self).spec_curr().spec_kind() != TokenKind::And,
            r matches Ok(e) ==> sp_expr(old(self).st()) == Some((e@, final(self).st())),
            sp_expr(old(self).st()) is Some ==> r is Ok,
            r matches Err(e) ==> !stmt_class_err(e),
        decreases old(self).measure(), 4int,
    {
        self.parse_logical_or()
    }

    /// Zero or more `OR`-joined conjunctions, folded left-associatively into
    /// nested binary nodes labelled `"OR"`.
    #[verifier::rlimit(60)]
    fn parse_logical_or(&mut self) -> (r: Result<Expr, QueryErr>)
        requires
            old(self).wf(),
        ensures
            final(self).wf(),
            final(self).src() == old(self).src(),
            final(self).measure() <= old(self).measure(),
            r is Ok ==> final(self).measure() < old(self).measure(),
            r is Ok ==> final(self).spec_curr().spec_kind() != TokenKind::Or && final(self).spec_curr().spec_kind() != TokenKind::And,
            r matches Ok(e) ==> sp_expr(old(self).st()) == Some((e@, final(self).st())),
            sp_expr(old(self).st()) is Some ==> r is Ok,
            r matches Err(e) ==> !stmt_class_err(e),
        decreases old(self).measure(), 3int,
    {
        reveal_with_fuel(sp_primary, 1);
        reveal_with_fuel(sp_comparison, 1);
        reveal_with_fuel(sp_and_rest, 1);
        reveal_with_fuel(sp_and, 1);
        reveal_with_fuel(sp_or_rest, 1);
        reveal_with_fuel(sp_expr, 1);
        let mut left = self.parse_logical_and()?;
        while self.curr.kind() == TokenKind::Or
            invariant
                self.wf(),
                self.src() == old(self).src(),
                self.measure() < old(self).measure(),
                self.curr.spec_kind() != TokenKind::Or ==> self.spec_curr().spec_kind()
                    != TokenKind::And,
                sp_expr(old(self).st()) == sp_or_rest(left@, self.st()),
            decreases self.measure(),
        {
            reveal_with_fuel(sp_primary, 1);
            reveal_with_fuel(sp_comparison, 1);
            reveal_with_fuel(sp_and_rest, 1);
            reveal_with_fuel(sp_and, 1);
            reveal_with_fuel(sp_or_rest, 1);
            reveal_with_fuel(sp_expr, 1);
            self.next()?;
            let right = self.parse_logical_and()?;
            left = Expr::Binary { op: "OR".to_owned(), left: left.boxed(), right: right.boxed() };
        }
        Ok(left)
    }

    /// Zero or more `AND`-joined comparisons, folded left-associatively into
    /// nested binary nodes labelled `"AND"`.
    fn parse_logical_and(&mut self) -> (r: Result<Expr, QueryErr>)
        requires
            old(self).wf(),
        ensures
            final(self).wf(),
            final(self).src() == old(self).src(),
            final(self).measure() <= old(self).measure(),
            r is Ok ==> final(self).measure() < old(self).measure(),
            r is Ok ==> final(self).spec_curr().spec_kind() != TokenKind::And,
            r matches Ok(e) ==> sp_and(old(self).st()) == Some((e@, final(self).st())),
            sp_and(old(self).st()) is Some ==> r is Ok,
            r matches Err(e) ==> !stmt_class_err(e),
        decreases old(self).measure(), 2int,
    {
        reveal_with_fuel(sp_primary, 1);
        reveal_with_fuel(sp_comparison, 1);
        reveal_with_fuel(sp_and_rest, 1);
        reveal_with_fuel(sp_and, 1);
        reveal_with_fuel(sp_or_rest, 1);
        reveal_with_fuel(sp_expr, 1);
        let mut left = self.parse_comparison()?;
        while self.curr.kind() == TokenKind::And
            invariant
                self.wf(),
                self.src() == old(self).src(),
                self.measure() < old(self).measure(),
                sp_and(old(self).st()) == sp_and_rest(left@, self.st()),
            decreases self.measure(),
        {
            reveal_with_fuel(sp_primary, 1);
            reveal_with_fuel(sp_comparison, 1);
            reveal_with_fuel(sp_and_rest, 1);
            reveal_with_fuel(sp_and, 1);
            reveal_with_fuel(sp_or_rest, 1);
            reveal_with_fuel(sp_expr, 1);
            self.next()?;
            let right = self.parse_comparison()?;
            left = Expr::Binary { op: "AND".to_owned(), left: left.boxed(), right: right.boxed() };
        }
        Ok(left)
    }

    /// A primary, optionally followed by exactly one comparison operator and
    /// one more primary. Comparison deliberately does not chain: at most one
    /// operator binds per pair, so `a = b = c` never folds into one chain.
    fn parse_comparison(&mut self) -> (r: Result<Expr, QueryErr>)
        requires
            old(self).wf(),
        ensures
            final(self).wf(),
            final(self).src() == old(self).src(),
            final(self).measure() <= old(self).measure(),
            r is Ok ==> final(self).measure() < old(self).measure(),
            r matches Ok(e) ==> sp_comparison(old(self).st()) == Some((e@, final(self).st())),
            sp_comparison(old(self).st()) is Some ==> r is Ok,
            r matches Err(e) ==> !stmt_class_err(e),
        decreases old(self).measure(), 1int,
    {
        reveal_with_fuel(sp_primary, 1);
        reveal_with_fuel(sp_comparison, 1);
        reveal_with_fuel(sp_and_rest, 1);
        reveal_with_fuel(sp_and, 1);
        reveal_with_fuel(sp_or_rest, 1);
        reveal_with_fuel(sp_expr, 1);
        let left = self.parse_primary()?;
        let k = self.curr.kind();
        let op: &str;
        if k == TokenKind::Eq {
            op = "=";
        } else if k == TokenKind::Gt {
            op = ">";
        } else if k == TokenKind::Lt {
            op = "<";
        } else if k == TokenKind::Ge {
            op = ">=";
        } else if k == TokenKind::Le {
            op = "<=";
        } else {
            return Ok(left);
        }
        self.next()?;
        let right = self.parse_primary()?;
        Ok(Expr::Binary { op: op.to_owned(), left: left.boxed(), right: right.boxed() })
    }

    /// A literal, an identifier, or a parenthesized sub-expression. This is
    /// where a numeric token's deferred text is resolved: integer first,
    /// floating-point fallback, a precise error when neither fits.
    #[verifier::rlimit(80)]
    fn parse_primary(&mut self) -> (r: Result<Expr, QueryErr>)
        requires
            old(self).wf(),
        ensures
            final(self).wf(),
            final(self).src() == old(self).src(),
            final(self).measure() <= old(self).measure(),
            r is Ok ==> final(self).measure() < old(self).measure(),
            r is Ok ==> starts_primary(old(self).spec_curr()@),
            r matches Ok(e) ==> (old(self).spec_curr()@ is Null ==> e is Null),
            r matches Ok(e) ==> (old(self).spec_curr()@ matches TokenV::Bool(b) ==> e
                matches Expr::Bool(b2) && b2 == b),
            r matches Ok(e) ==> (old(self).spec_curr()@ matches TokenV::Num(n) ==> number_expr_of(
                n,
                e,
            )),
            r matches Ok(e) ==> (old(self).spec_curr()@ matches TokenV::Text(t) ==> e
                matches Expr::Text(s2) && s2@ == t),
            r matches Ok(e) ==> (old(self).spec_curr()@ matches TokenV::Ident(nm) ==> e
                matches Expr::Ident(s2) && s2@ == nm),
            !starts_primary(old(self).spec_curr()@) ==> (r matches Err(e2) && (e2
                matches QueryErr::UnexpectedToken { expected, found } && expected == Expected::Expr
                && found == old(self).spec_curr() || e2 matches QueryErr::BadChar { .. } || e2
                matches QueryErr::UnterminatedText { .. })),
            (old(self).spec_curr()@ is Null || old(self).spec_curr()@ is Bool || old(self).spec_curr()@ is Text || old(self).spec_curr()@ is Ident) && spec_token_at(
                old(self).src(),
                old(self).lex_pos(),
            ) is Tok ==> r is Ok,
            old(self).spec_curr()@ matches TokenV::Num(n) && (is_int_text(n) || is_float_text(n))
                && spec_token_at(old(self).src(), old(self).lex_pos()) is Tok ==> r is Ok,
            r matches Ok(e) ==> sp_primary(old(self).st()) == Some((e@, final(self).st())),
            sp_primary(old(self).st()) is Some ==> r is Ok,
            !starts_primary(old(self).spec_curr()@) && st_next(old(self).st()) is Some ==> (r
                matches Err(e2) && e2 matches QueryErr::UnexpectedToken { expected, found }
                && expected == Expected::Expr && found == old(self).spec_curr()),
            old(self).spec_curr()@ matches TokenV::Num(n) ==> (!is_int_text(n) && !is_float_text(
                n,
            ) && st_next(old(self).st()) is Some ==> (r matches Err(e2) && e2
                matches QueryErr::InvalidExpr(t) && t@ == n)),
            r matches Err(e2) ==> !stmt_class_err(e2),
        decreases old(self).measure(), 0int,
    {
        reveal_with_fuel(sp_primary, 1);
        reveal_with_fuel(sp_comparison, 1);
        reveal_with_fuel(sp_and_rest, 1);
        reveal_with_fuel(sp_and, 1);
        reveal_with_fuel(sp_or_rest, 1);
        reveal_with_fuel(sp_expr, 1);
        let tok = self.next()?;
        match tok {
            Token::Null => Ok(Expr::Null),
            Token::Bool(b) => Ok(Expr::Bool(b)),
            Token::Num(n) => {
                let res = parse_number(n.as_str());
                proof {
                    if is_int_text(n@) {
                        assert(res matches Ok(e) && e@ == ExprV::Int(digits_val(n@) as i64));
                    }
                }
                res
            },
            Token::Text(t) => Ok(Expr::Text(t)),
            Token::Ident(name) => Ok(Expr::Ident(name)),
            Token::LParen => {
                let e = self.parse_expr()?;
                self.expect(TokenKind::RParen)?;
                Ok(e)
            },
            other => Err(QueryErr::UnexpectedToken { expected: Expected::Expr, found: other }),
        }
    }
}

} // verus!
