//! Front end of a small relational data store: a tokenizer turns query text
//! into a stream of typed tokens, and a recursive-descent parser turns that
//! stream into an abstract syntax tree of statements, clauses and expressions.
//!
//! A parse either returns the full sequence of statements or a typed error;
//! no partial tree is ever handed back.

pub mod error;
pub mod lexer;
pub mod number;
pub mod parser;
