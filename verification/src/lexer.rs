//! The tokenizer. `Token` is the closed set of lexical units; `Lexer` scans
//! query text and hands tokens out one at a time, never re-reading consumed
//! text. The spec-level function `spec_token_at` says exactly which token
//! starts at a given scan position, and `Lexer::next` is proved to follow it.

use vstd::prelude::*;

use crate::error::QueryErr;

verus! {

/// One lexical unit of query text.
///
/// The single kind `Eq` stands for the `=` character wherever it occurs: it
/// serves both as the assignment operator of `UPDATE ... SET` and as the
/// equality comparison operator, so the two roles share one canonical kind.
#[derive(Debug, Clone, PartialEq)]
pub enum Token {
    /// The literal `NULL`.
    Null,
    /// A numeric literal, kept as its original text; conversion to a number
    /// is deferred to expression construction.
    Num(String),
    /// A quoted text literal, without its delimiters.
    Text(String),
    /// An identifier.
    Ident(String),
    /// The boolean literals `TRUE` and `FALSE`.
    Bool(bool),
    Create,
    Table,
    Select,
    From,
    Where,
    Update,
    Alter,
    Delete,
    Drop,
    Insert,
    Into,
    Values,
    SetKw,
    Dot,
    Comma,
    Semicolon,
    LParen,
    RParen,
    Not,
    And,
    Or,
    Eq,
    Gt,
    Lt,
    Ge,
    Le,
    Add,
    Sub,
    Mul,
    Div,
    /// The end-of-input marker; produced again on every call once reached.
    Eof,
}

/// The kind of a token: variant identity without the carried value. The
/// parser matches on kinds, never on the text a token carries.
#[derive(Debug, Clone, Copy, PartialEq, Eq, Structural)]
pub enum TokenKind {
    Null,
    Num,
    Text,
    Ident,
    Bool,
    Create,
    Table,
    Select,
    From,
    Where,
    Update,
    Alter,
    Delete,
    Drop,
    Insert,
    Into,
    Values,
    SetKw,
    Dot,
    Comma,
    Semicolon,
    LParen,
    RParen,
    Not,
    And,
    Or,
    Eq,
    Gt,
    Lt,
    Ge,
    Le,
    Add,
    Sub,
    Mul,
    Div,
    Eof,
}

/// The mathematical value of a token: the same variants as `Token`, with
/// each carried string abstracted to its sequence of characters.
pub enum TokenV {
    Null,
    Num(Seq<char>),
    Text(Seq<char>),
    Ident(Seq<char>),
    Bool(bool),
    Create,
    Table,
    Select,
    From,
    Where,
    Update,
    Alter,
    Delete,
    Drop,
    Insert,
    Into,
    Values,
    SetKw,
    Dot,
    Comma,
    Semicolon,
    LParen,
    RParen,
    Not,
    And,
    Or,
    Eq,
    Gt,
    Lt,
    Ge,
    Le,
    Add,
    Sub,
    Mul,
    Div,
    Eof,
}

impl View for Token {
    type V = TokenV;

    open spec fn view(&self) -> TokenV {
        match self {
            Token::Null => TokenV::Null,
            Token::Num(s) => TokenV::Num(s@),
            Token::Text(s) => TokenV::Text(s@),
            Token::Ident(s) => TokenV::Ident(s@),
            Token::Bool(b) => TokenV::Bool(*b),
            Token::Create => TokenV::Create,
            Token::Table => TokenV::Table,
            Token::Select => TokenV::Select,
            Token::From => TokenV::From,
            Token::Where => TokenV::Where,
            Token::Update => TokenV::Update,
            Token::Alter => TokenV::Alter,
            Token::Delete => TokenV::Delete,
            Token::Drop => TokenV::Drop,
            Token::Insert => TokenV::Insert,
            Token::Into => TokenV::Into,
            Token::Values => TokenV::Values,
            Token::SetKw => TokenV::SetKw,
            Token::Dot => TokenV::Dot,
            Token::Comma => TokenV::Comma,
            Token::Semicolon => TokenV::Semicolon,
            Token::LParen => TokenV::LParen,
            Token::RParen => TokenV::RParen,
            Token::Not => TokenV::Not,
            Token::And => TokenV::And,
            Token::Or => TokenV::Or,
            Token::Eq => TokenV::Eq,
            Token::Gt => TokenV::Gt,
            Token::Lt => TokenV::Lt,
            Token::Ge => TokenV::Ge,
            Token::Le => TokenV::Le,
            Token::Add => TokenV::Add,
            Token::Sub => TokenV::Sub,
            Token::Mul => TokenV::Mul,
            Token::Div => TokenV::Div,
            Token::Eof => TokenV::Eof,
        }
    }
}

/// The kind of a token value.
pub open spec fn kind_of(tv: TokenV) -> TokenKind {
    match tv {
        TokenV::Null => TokenKind::Null,
        TokenV::Num(_) => TokenKind::Num,
        TokenV::Text(_) => TokenKind::Text,
        TokenV::Ident(_) => TokenKind::Ident,
        TokenV::Bool(_) => TokenKind::Bool,
        TokenV::Create => TokenKind::Create,
        TokenV::Table => TokenKind::Table,
        TokenV::Select => TokenKind::Select,
        TokenV::From => TokenKind::From,
        TokenV::Where => TokenKind::Where,
        TokenV::Update => TokenKind::Update,
        TokenV::Alter => TokenKind::Alter,
        TokenV::Delete => TokenKind::Delete,
        TokenV::Drop => TokenKind::Drop,
        TokenV::Insert => TokenKind::Insert,
        TokenV::Into => TokenKind::Into,
        TokenV::Values => TokenKind::Values,
        TokenV::SetKw => TokenKind::SetKw,
        TokenV::Dot => TokenKind::Dot,
        TokenV::Comma => TokenKind::Comma,
        TokenV::Semicolon => TokenKind::Semicolon,
        TokenV::LParen => TokenKind::LParen,
        TokenV::RParen => TokenKind::RParen,
        TokenV::Not => TokenKind::Not,
        TokenV::And => TokenKind::And,
        TokenV::Or => TokenKind::Or,
        TokenV::Eq => TokenKind::Eq,
        TokenV::Gt => TokenKind::Gt,
        TokenV::Lt => TokenKind::Lt,
        TokenV::Ge => TokenKind::Ge,
        TokenV::Le => TokenKind::Le,
        TokenV::Add => TokenKind::Add,
        TokenV::Sub => TokenKind::Sub,
        TokenV::Mul => TokenKind::Mul,
        TokenV::Div => TokenKind::Div,
        TokenV::Eof => TokenKind::Eof,
    }
}

impl Token {
    /// The kind of this token.
    pub open spec fn spec_kind(&self) -> TokenKind {
        kind_of(self@)
    }

    /// Variant identity of this token, for the parser's kind checks.
    #[verifier::when_used_as_spec(spec_kind)]
    pub fn kind(&self) -> (k: TokenKind)
        ensures
            k == self.spec_kind(),
    {
        match self {
            Token::Null => TokenKind::Null,
            Token::Num(_) => TokenKind::Num,
            Token::Text(_) => TokenKind::Text,
            Token::Ident(_) => TokenKind::Ident,
            Token::Bool(_) => TokenKind::Bool,
            Token::Create => TokenKind::Create,
            Token::Table => TokenKind::Table,
            Token::Select => TokenKind::Select,
            Token::From => TokenKind::From,
            Token::Where => TokenKind::Where,
            Token::Update => TokenKind::Update,
            Token::Alter => TokenKind::Alter,
            Token::Delete => TokenKind::Delete,
            Token::Drop => TokenKind::Drop,
            Token::Insert => TokenKind::Insert,
            Token::Into => TokenKind::Into,
            Token::Values => TokenKind::Values,
            Token::SetKw => TokenKind::SetKw,
            Token::Dot => TokenKind::Dot,
            Token::Comma => TokenKind::Comma,
            Token::Semicolon => TokenKind::Semicolon,
            Token::LParen => TokenKind::LParen,
            Token::RParen => TokenKind::RParen,
            Token::Not => TokenKind::Not,
            Token::And => TokenKind::And,
            Token::Or => TokenKind::Or,
            Token::Eq => TokenKind::Eq,
            Token::Gt => TokenKind::Gt,
            Token::Lt => TokenKind::Lt,
            Token::Ge => TokenKind::Ge,
            Token::Le => TokenKind::Le,
            Token::Add => TokenKind::Add,
            Token::Sub => TokenKind::Sub,
            Token::Mul => TokenKind::Mul,
            Token::Div => TokenKind::Div,
            Token::Eof => TokenKind::Eof,
        }
    }

    /// An equal copy of this token. Written out by hand so that the copy is
    /// known to equal the original, which a derived clone would not give.
    pub fn dup(&self) -> (t: Token)
        ensures
            t == *self,
    {
        match self {
            Token::Null => Token::Null,
            Token::Num(s) => Token::Num(s.clone()),
            Token::Text(s) => Token::Text(s.clone()),
            Token::Ident(s) => Token::Ident(s.clone()),
            Token::Bool(b) => Token::Bool(*b),
            Token::Create => Token::Create,
            Token::Table => Token::Table,
            Token::Select => Token::Select,
            Token::From => Token::From,
            Token::Where => Token::Where,
            Token::Update => Token::Update,
            Token::Alter => Token::Alter,
            Token::Delete => Token::Delete,
            Token::Drop => Token::Drop,
            Token::Insert => Token::Insert,
            Token::Into => Token::Into,
            Token::Values => Token::Values,
            Token::SetKw => Token::SetKw,
            Token::Dot => Token::Dot,
            Token::Comma => Token::Comma,
            Token::Semicolon => Token::Semicolon,
            Token::LParen => Token::LParen,
            Token::RParen => Token::RParen,
            Token::Not => Token::Not,
            Token::And => Token::And,
            Token::Or => Token::Or,
            Token::Eq => Token::Eq,
            Token::Gt => Token::Gt,
            Token::Lt => Token::Lt,
            Token::Ge => Token::Ge,
            Token::Le => Token::Le,
            Token::Add => Token::Add,
            Token::Sub => Token::Sub,
            Token::Mul => Token::Mul,
            Token::Div => Token::Div,
            Token::Eof => Token::Eof,
        }
    }
}

/// Insignificant whitespace between tokens.
pub open spec fn is_ws_char(c: char) -> bool {
    c == ' ' || c == '\t' || c == '\n' || c == '\r'
}

/// A decimal digit.
pub open spec fn is_digit_char(c: char) -> bool {
    48 <= c as u32 <= 57
}

/// A character that may begin an identifier or keyword.
pub open spec fn is_alpha_char(c: char) -> bool {
    (65 <= c as u32 <= 90) || (97 <= c as u32 <= 122) || c == '_'
}

/// A character that may continue an identifier or keyword.
pub open spec fn is_ident_char(c: char) -> bool {
    is_alpha_char(c) || is_digit_char(c)
}

/// A character that may continue a digit-led numeric run. Dots are taken
/// into the run; whether the run is a valid number is decided later.
pub open spec fn is_num_char(c: char) -> bool {
    is_digit_char(c) || c == '.'
}

fn ws_char(c: char) -> (b: bool)
    ensures
        b == is_ws_char(c),
{
    c == ' ' || c == '\t' || c == '\n' || c == '\r'
}

fn digit_char(c: char) -> (b: bool)
    ensures
        b == is_digit_char(c),
{
    c as u32 >= 48 && c as u32 <= 57
}

fn alpha_char(c: char) -> (b: bool)
    ensures
        b == is_alpha_char(c),
{
    (c as u32 >= 65 && c as u32 <= 90) || (c as u32 >= 97 && c as u32 <= 122) || c == '_'
}

fn ident_char(c: char) -> (b: bool)
    ensures
        b == is_ident_char(c),
{
    alpha_char(c) || digit_char(c)
}

fn num_char(c: char) -> (b: bool)
    ensures
        b == is_num_char(c),
{
    digit_char(c) || c == '.'
}

/// First position at or after `p` that does not hold whitespace.
pub open spec fn skip_ws(text: Seq<char>, p: int) -> int
    decreases text.len() - p
        when p <= text.len()
{
    if p >= text.len() {
        p
    } else if is_ws_char(text[p]) {
        skip_ws(text, p + 1)
    } else {
        p
    }
}

/// End of the identifier run that starts at `p`.
pub open spec fn ident_end(text: Seq<char>, p: int) -> int
    decreases text.len() - p
        when p <= text.len()
{
    if p >= text.len() {
        p
    } else if is_ident_char(text[p]) {
        ident_end(text, p + 1)
    } else {
        p
    }
}

/// End of the digit-and-dot run that starts at `p`.
pub open spec fn num_end(text: Seq<char>, p: int) -> int
    decreases text.len() - p
        when p <= text.len()
{
    if p >= text.len() {
        p
    } else if is_num_char(text[p]) {
        num_end(text, p + 1)
    } else {
        p
    }
}

/// Position of the first closing quote at or after `p`, or the text's length
/// if the literal never closes.
pub open spec fn text_lit_end(text: Seq<char>, p: int) -> int
    decreases text.len() - p
        when p <= text.len()
{
    if p >= text.len() {
        p
    } else if text[p] == '\'' {
        p
    } else {
        text_lit_end(text, p + 1)
    }
}

pub proof fn lemma_skip_ws_bounds(text: Seq<char>, p: int)
    requires
        0 <= p <= text.len(),
    ensures
        p <= skip_ws(text, p) <= text.len(),
        skip_ws(text, p) < text.len() ==> !is_ws_char(text[skip_ws(text, p)]),
    decreases text.len() - p,
{
    if p < text.len() && is_ws_char(text[p]) {
        lemma_skip_ws_bounds(text, p + 1);
    }
}

pub proof fn lemma_ident_end_bounds(text: Seq<char>, p: int)
    requires
        0 <= p <= text.len(),
    ensures
        p <= ident_end(text, p) <= text.len(),
    decreases text.len() - p,
{
    if p < text.len() && is_ident_char(text[p]) {
        lemma_ident_end_bounds(text, p + 1);
    }
}

pub proof fn lemma_num_end_bounds(text: Seq<char>, p: int)
    requires
        0 <= p <= text.len(),
    ensures
        p <= num_end(text, p) <= text.len(),
    decreases text.len() - p,
{
    if p < text.len() && is_num_char(text[p]) {
        lemma_num_end_bounds(text, p + 1);
    }
}

pub proof fn lemma_text_lit_end_bounds(text: Seq<char>, p: int)
    requires
        0 <= p <= text.len(),
    ensures
        p <= text_lit_end(text, p) <= text.len(),
    decreases text.len() - p,
{
    if p < text.len() && text[p] != '\'' {
        lemma_text_lit_end_bounds(text, p + 1);
    }
}

/// The token an identifier run denotes: one of the reserved keywords, a
/// literal (`NULL`, `TRUE`, `FALSE`), or a plain identifier.
pub open spec fn keyword_or_ident(w: Seq<char>) -> TokenV {
    if w == "CREATE"@ {
        TokenV::Create
    } else if w == "TABLE"@ {
        TokenV::Table
    } else if w == "SELECT"@ {
        TokenV::Select
    } else if w == "FROM"@ {
        TokenV::From
    } else if w == "WHERE"@ {
        TokenV::Where
    } else if w == "UPDATE"@ {
        TokenV::Update
    } else if w == "ALTER"@ {
        TokenV::Alter
    } else if w == "DELETE"@ {
        TokenV::Delete
    } else if w == "DROP"@ {
        TokenV::Drop
    } else if w == "INSERT"@ {
        TokenV::Insert
    } else if w == "INTO"@ {
        TokenV::Into
    } else if w == "VALUES"@ {
        TokenV::Values
    } else if w == "SET"@ {
        TokenV::SetKw
    } else if w == "AND"@ {
        TokenV::And
    } else if w == "OR"@ {
        TokenV::Or
    } else if w == "NOT"@ {
        TokenV::Not
    } else if w == "NULL"@ {
        TokenV::Null
    } else if w == "TRUE"@ {
        TokenV::Bool(true)
    } else if w == "FALSE"@ {
        TokenV::Bool(false)
    } else {
        TokenV::Ident(w)
    }
}

/// The outcome of one lexing step: a token and the position just past it, a
/// character no token starts with, or a text literal opened and never closed.
pub enum TokenStep {
    Tok(TokenV, int),
    BadChar(int),
    Unterminated(int),
}

/// The token that starts at scan position `p` of the query text: skip
/// whitespace, then take the longest run the leading character allows.
/// Multi-character operators are taken greedily before their one-character
/// prefixes, and an exhausted text yields the end-of-input marker in place.
pub open spec fn spec_token_at(text: Seq<char>, p: int) -> TokenStep {
    let i = skip_ws(text, p);
    if i >= text.len() {
        TokenStep::Tok(TokenV::Eof, text.len() as int)
    } else {
        let c = text[i];
        if is_digit_char(c) {
            TokenStep::Tok(TokenV::Num(text.subrange(i, num_end(text, i))), num_end(text, i))
        } else if is_alpha_char(c) {
            TokenStep::Tok(
                keyword_or_ident(text.subrange(i, ident_end(text, i))),
                ident_end(text, i),
            )
        } else if c == '\'' {
            let e = text_lit_end(text, i + 1);
            if e >= text.len() {
                TokenStep::Unterminated(i)
            } else {
                TokenStep::Tok(TokenV::Text(text.subrange(i + 1, e)), e + 1)
            }
        } else if c == '>' {
            if i + 1 < text.len() && text[i + 1] == '=' {
                TokenStep::Tok(TokenV::Ge, i + 2)
            } else {
                TokenStep::Tok(TokenV::Gt, i + 1)
            }
        } else if c == '<' {
            if i + 1 < text.len() && text[i + 1] == '=' {
                TokenStep::Tok(TokenV::Le, i + 2)
            } else {
                TokenStep::Tok(TokenV::Lt, i + 1)
            }
        } else if c == '=' {
            TokenStep::Tok(TokenV::Eq, i + 1)
        } else if c == '.' {
            TokenStep::Tok(TokenV::Dot, i + 1)
        } else if c == ',' {
            TokenStep::Tok(TokenV::Comma, i + 1)
        } else if c == ';' {
            TokenStep::Tok(TokenV::Semicolon, i + 1)
        } else if c == '(' {
            TokenStep::Tok(TokenV::LParen, i + 1)
        } else if c == ')' {
            TokenStep::Tok(TokenV::RParen, i + 1)
        } else if c == '+' {
            TokenStep::Tok(TokenV::Add, i + 1)
        } else if c == '-' {
            TokenStep::Tok(TokenV::Sub, i + 1)
        } else if c == '*' {
            TokenStep::Tok(TokenV::Mul, i + 1)
        } else if c == '/' {
            TokenStep::Tok(TokenV::Div, i + 1)
        } else {
            TokenStep::BadChar(i)
        }
    }
}

/// Bounds of one lexing step: a token never reaches back before the scan
/// position nor past the end, only the end-of-input marker stands still, and
/// every other token takes at least one character.
pub proof fn lemma_token_at_bounds(text: Seq<char>, p: int)
    requires
        0 <= p <= text.len(),
    ensures
        spec_token_at(text, p) matches TokenStep::Tok(tv, q) ==> p <= q <= text.len(),
        spec_token_at(text, p) matches TokenStep::Tok(tv, q) ==> (!(tv is Eof) ==> q >= p + 1),
        spec_token_at(text, p) matches TokenStep::Tok(tv, q) ==> (tv is Eof ==> q == text.len()),
        spec_token_at(text, p) matches TokenStep::BadChar(i) ==> p <= i < text.len(),
        spec_token_at(text, p) matches TokenStep::Unterminated(i) ==> p <= i < text.len(),
{
    lemma_skip_ws_bounds(text, p);
    let i = skip_ws(text, p);
    if i < text.len() {
        let c = text[i];
        if is_digit_char(c) {
            lemma_num_end_bounds(text, i);
            assert(num_end(text, i) == num_end(text, i + 1));
            lemma_num_end_bounds(text, i + 1);
        } else if is_alpha_char(c) {
            lemma_ident_end_bounds(text, i);
            assert(ident_end(text, i) == ident_end(text, i + 1));
            lemma_ident_end_bounds(text, i + 1);
        } else if c == '\'' {
            lemma_text_lit_end_bounds(text, i + 1);
        }
    }
}

/// Once the scan position stands at the end of the text, the lexing step
/// yields the end-of-input marker and stays in place — so `next` keeps
/// producing `Eof` on every further call: the token stream is idempotent at
/// end of stream.
pub proof fn lemma_eof_idempotent(text: Seq<char>)
    ensures
        spec_token_at(text, text.len() as int) matches TokenStep::Tok(tv, q) && tv is Eof && q
            == text.len(),
{
}

/// Scans query text and produces tokens on demand, advancing a character
/// index and never re-reading consumed text. Lexing stops at the first fault;
/// once the text is exhausted every further call yields the end-of-input
/// marker again.
pub struct Lexer {
    text: String,
    pos: usize,
}

impl Lexer {
    /// The query text being scanned.
    pub closed spec fn src(&self) -> Seq<char> {
        self.text@
    }

    /// The scan position, as a character index into the text.
    pub closed spec fn spec_pos(&self) -> int {
        self.pos as int
    }

    /// The scan position never passes the end of the text.
    pub open spec fn wf(&self) -> bool {
        0 <= self.spec_pos() <= self.src().len()
    }

    /// A fresh scanner over the whole of `text`.
    pub fn new(text: &str) -> (l: Lexer)
        ensures
            l.wf(),
            l.src() == text@,
            l.spec_pos() == 0,
    {
        Lexer { text: text.to_owned(), pos: 0 }
    }

    /// The next token of the text. Follows `spec_token_at` exactly: skips
    /// whitespace, recognizes keywords against identifiers, digit-led numeric
    /// runs, quoted text literals, the two-character operators before their
    /// one-character prefixes, and all punctuation; reports the first fault
    /// and produces `Eof` in place once the text is exhausted.
    pub fn next(&mut self) -> (r: Result<Token, QueryErr>)
        requires
            old(self).wf(),
        ensures
            final(self).wf(),
            final(self).src() == old(self).src(),
            final(self).spec_pos() >= old(self).spec_pos(),
            match spec_token_at(old(self).src(), old(self).spec_pos()) {
                TokenStep::Tok(tv, q) => r matches Ok(t) && t@ == tv && final(self).spec_pos() == q,
                TokenStep::BadChar(i) => r matches Err(e) && e matches QueryErr::BadChar { pos, ch } && pos == i && ch == old(self).src()[i] && final(self).spec_pos() == i,
                TokenStep::Unterminated(i) => r matches Err(e) && e matches QueryErr::UnterminatedText { pos } && pos == i && final(self).spec_pos() == old(self).src().len(),
            },
    {
        let ghost text = self.text@;
        let ghost p0 = self.pos as int;
        proof {
            lemma_token_at_bounds(text, p0);
        }
        let len = self.text.as_str().unicode_len();
        while self.pos < len && ws_char(self.text.as_str().get_char(self.pos))
            invariant
                self.text@ == text,
                self.pos <= len,
                len == text.len(),
                p0 <= self.pos as int,
                skip_ws(text, p0) == skip_ws(text, self.pos as int),
            decreases len - self.pos,
        {
            self.pos = self.pos + 1;
        }
        assert(skip_ws(text, p0) == self.pos as int);
        if self.pos == len {
            return Ok(Token::Eof);
        }
        let start = self.pos;
        let ghost i = start as int;
        let c = self.text.as_str().get_char(start);
        if digit_char(c) {
            self.pos = self.pos + 1;
            while self.pos < len && num_char(self.text.as_str().get_char(self.pos))
                invariant
                    self.text@ == text,
                    i < self.pos <= len,
                    len == text.len(),
                    num_end(text, i) == num_end(text, self.pos as int),
                decreases len - self.pos,
            {
                self.pos = self.pos + 1;
            }
            assert(num_end(text, i) == self.pos as int);
            let w = self.text.as_str().substring_char(start, self.pos);
            return Ok(Token::Num(w.to_owned()));
        } else if alpha_char(c) {
            self.pos = self.pos + 1;
            while self.pos < len && ident_char(self.text.as_str().get_char(self.pos))
                invariant
                    self.text@ == text,
                    i < self.pos <= len,
                    len == text.len(),
                    ident_end(text, i) == ident_end(text, self.pos as int),
                decreases len - self.pos,
            {
                self.pos = self.pos + 1;
            }
            assert(ident_end(text, i) == self.pos as int);
            let w = self.text.as_str().substring_char(start, self.pos);
            return Ok(keyword_token(w));
        } else if c == '\'' {
            self.pos = self.pos + 1;
            while self.pos < len && self.text.as_str().get_char(self.pos) != '\''
                invariant
                    self.text@ == text,
                    i < self.pos <= len,
                    len == text.len(),
                    text_lit_end(text, i + 1) == text_lit_end(text, self.pos as int),
                decreases len - self.pos,
            {
                self.pos = self.pos + 1;
            }
            assert(text_lit_end(text, i + 1) == self.pos as int);
            if self.pos == len {
                return Err(QueryErr::UnterminatedText { pos: start });
            }
            let w = self.text.as_str().substring_char(start + 1, self.pos);
            let t = Token::Text(w.to_owned());
            self.pos = self.pos + 1;
            return Ok(t);
        } else if c == '>' {
            self.pos = self.pos + 1;
            if self.pos < len && self.text.as_str().get_char(self.pos) == '=' {
                self.pos = self.pos + 1;
                return Ok(Token::Ge);
            }
            return Ok(Token::Gt);
        } else if c == '<' {
            self.pos = self.pos + 1;
            if self.pos < len && self.text.as_str().get_char(self.pos) == '=' {
                self.pos = self.pos + 1;
                return Ok(Token::Le);
            }
            return Ok(Token::Lt);
        } else if c == '=' {
            self.pos = self.pos + 1;
            return Ok(Token::Eq);
        } else if c == '.' {
            self.pos = self.pos + 1;
            return Ok(Token::Dot);
        } else if c == ',' {
            self.pos = self.pos + 1;
            return Ok(Token::Comma);
        } else if c == ';' {
            self.pos = self.pos + 1;
            return Ok(Token::Semicolon);
        } else if c == '(' {
            self.pos = self.pos + 1;
            return Ok(Token::LParen);
        } else if c == ')' {
            self.pos = self.pos + 1;
            return Ok(Token::RParen);
        } else if c == '+' {
            self.pos = self.pos + 1;
            return Ok(Token::Add);
        } else if c == '-' {
            self.pos = self.pos + 1;
            return Ok(Token::Sub);
        } else if c == '*' {
            self.pos = self.pos + 1;
            return Ok(Token::Mul);
        } else if c == '/' {
            self.pos = self.pos + 1;
            return Ok(Token::Div);
        } else {
            return Err(QueryErr::BadChar { pos: start, ch: c });
        }
    }
}

/// Whether two string slices hold the same characters.
fn str_eq(a: &str, b: &str) -> (r: bool)
    ensures
        r == (a@ == b@),
{
    let alen = a.unicode_len();
    let blen = b.unicode_len();
    if alen != blen {
        return false;
    }
    let mut k: usize = 0;
    while k < alen
        invariant
            k <= alen,
            alen == a@.len(),
            alen == b@.len(),
            forall|j: int| 0 <= j < k ==> a@[j] == b@[j],
        decreases alen - k,
    {
        if a.get_char(k) != b.get_char(k) {
            return false;
        }
        k = k + 1;
    }
    proof {
        assert(a@ =~= b@);
    }
    true
}

/// The token for one identifier run: the keyword it spells, or an identifier.
fn keyword_token(w: &str) -> (t: Token)
    ensures
        t@ == keyword_or_ident(w@),
{
    if str_eq(w, "CREATE") {
        Token::Create
    } else if str_eq(w, "TABLE") {
        Token::Table
    } else if str_eq(w, "SELECT") {
        Token::Select
    } else if str_eq(w, "FROM") {
        Token::From
    } else if str_eq(w, "WHERE") {
        Token::Where
    } else if str_eq(w, "UPDATE") {
        Token::Update
    } else if str_eq(w, "ALTER") {
        Token::Alter
    } else if str_eq(w, "DELETE") {
        Token::Delete
    } else if str_eq(w, "DROP") {
        Token::Drop
    } else if str_eq(w, "INSERT") {
        Token::Insert
    } else if str_eq(w, "INTO") {
        Token::Into
    } else if str_eq(w, "VALUES") {
        Token::Values
    } else if str_eq(w, "SET") {
        Token::SetKw
    } else if str_eq(w, "AND") {
        Token::And
    } else if str_eq(w, "OR") {
        Token::Or
    } else if str_eq(w, "NOT") {
        Token::Not
    } else if str_eq(w, "NULL") {
        Token::Null
    } else if str_eq(w, "TRUE") {
        Token::Bool(true)
    } else if str_eq(w, "FALSE") {
        Token::Bool(false)
    } else {
        Token::Ident(w.to_owned())
    }
}

} // verus!
