//! The typed errors a parse can end in: a lexical fault (a character that no
//! token starts with, or a text literal that never closes), a grammar
//! mismatch (which token class was required and which token stood there), or
//! a numeric literal whose text is neither an integer nor a float.

use vstd::prelude::*;

use crate::lexer::Token;
use crate::lexer::TokenKind;

verus! {

/// What the parser was looking for when it found the wrong token.
#[derive(Debug, Clone, PartialEq)]
pub enum Expected {
    /// One specific token kind.
    Kind(TokenKind),
    /// Any identifier.
    Ident,
    /// A token that can begin a statement.
    Stmt,
    /// A token that can begin an expression.
    Expr,
    /// The continuation or the close of a comma-separated list.
    CommaOrRParen,
}

/// Every failure of a parse. Lexical faults carry the offending position
/// (a character index into the query text); grammar mismatches carry the
/// expected class and the token found; a bad numeric literal carries its text.
#[derive(Debug, Clone, PartialEq)]
pub enum QueryErr {
    /// No token starts with this character.
    BadChar { pos: usize, ch: char },
    /// A text literal was opened at `pos` and never closed.
    UnterminatedText { pos: usize },
    /// The grammar required one class of token and found another.
    UnexpectedToken { expected: Expected, found: Token },
    /// A numeric token whose text is neither a valid integer nor a valid float.
    InvalidExpr(String),
}

} // verus!
