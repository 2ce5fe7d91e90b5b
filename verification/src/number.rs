//! Deferred numeric conversion. The tokenizer keeps a numeric literal as its
//! original text; only here, at expression construction, is the text resolved:
//! integer reading first, then the floating-point form as a fallback, and a
//! precise error when the text is neither.

use vstd::prelude::*;

use crate::error::QueryErr;
use crate::lexer::is_digit_char;
use crate::lexer::is_num_char;
use crate::parser::Expr;

verus! {

/// A non-empty run of decimal digits.
pub open spec fn is_digit_seq(s: Seq<char>) -> bool {
    s.len() > 0 && forall|j: int| 0 <= j < s.len() ==> is_digit_char(s[j])
}

/// The numeric value of one decimal digit.
pub open spec fn digit_val(c: char) -> nat {
    (c as u32 - 48) as nat
}

/// The value a run of decimal digits denotes.
pub open spec fn digits_val(s: Seq<char>) -> nat
    decreases s.len(),
{
    if s.len() == 0 {
        0
    } else {
        digits_val(s.drop_last()) * 10 + digit_val(s.last())
    }
}

/// How many dots a text holds.
pub open spec fn dot_count(s: Seq<char>) -> nat
    decreases s.len(),
{
    if s.len() == 0 {
        0
    } else {
        dot_count(s.drop_last()) + if s.last() == '.' {
            1nat
        } else {
            0nat
        }
    }
}

/// A digit-led run of digits that denotes a value an `i64` can hold.
pub open spec fn is_int_text(s: Seq<char>) -> bool {
    is_digit_seq(s) && digits_val(s) <= i64::MAX
}

/// A digit-led run of digits and dots with at most one dot: the
/// floating-point literal form. Every valid integer text also has this form;
/// integer reading is tried first.
pub open spec fn is_float_text(s: Seq<char>) -> bool {
    &&& s.len() > 0
    &&& is_digit_char(s[0])
    &&& (forall|j: int| 0 <= j < s.len() ==> is_num_char(s[j]))
    &&& dot_count(s) <= 1
}

proof fn lemma_digits_val_step(s: Seq<char>, j: int)
    requires
        0 <= j < s.len(),
    ensures
        digits_val(s.take(j + 1)) == digits_val(s.take(j)) * 10 + digit_val(s[j]),
{
    assert(s.take(j + 1).drop_last() =~= s.take(j));
    assert(s.take(j + 1).last() == s[j]);
}

proof fn lemma_dot_count_step(s: Seq<char>, j: int)
    requires
        0 <= j < s.len(),
    ensures
        dot_count(s.take(j + 1)) == dot_count(s.take(j)) + if s[j] == '.' {
            1nat
        } else {
            0nat
        },
{
    assert(s.take(j + 1).drop_last() =~= s.take(j));
    assert(s.take(j + 1).last() == s[j]);
}

/// What a numeric literal text resolves to: its integer value when the text
/// is all digits and the value fits an `i64`, otherwise the floating-point
/// literal kept as text when the form allows it, and nothing else.
pub open spec fn number_expr_of(n: Seq<char>, e: Expr) -> bool {
    if is_int_text(n) {
        e matches Expr::Int(v) && v == digits_val(n)
    } else if is_float_text(n) {
        e matches Expr::Float(t) && t@ == n
    } else {
        false
    }
}

/// The expression a numeric literal text resolves to: its integer value when
/// the text is all digits and fits an `i64`; otherwise the floating-point
/// literal, kept as text, when the form allows it; otherwise a precise error
/// carrying the offending text. This is the one place the tokenizer's
/// deferred numeric validation is settled.
pub fn parse_number(text: &str) -> (r: Result<Expr, QueryErr>)
    ensures
        is_int_text(text@) ==> (r matches Ok(e) && e matches Expr::Int(v) && v == digits_val(
            text@,
        )),
        !is_int_text(text@) && is_float_text(text@) ==> (r matches Ok(e) && e
            matches Expr::Float(t) && t@ == text@),
        !is_int_text(text@) && !is_float_text(text@) ==> (r matches Err(e) && e
            matches QueryErr::InvalidExpr(t) && t@ == text@),
{
    let ghost s = text@;
    let len = text.unicode_len();
    if len == 0 {
        return Err(QueryErr::InvalidExpr(text.to_owned()));
    }
    let mut k: usize = 0;
    let mut all_digits = true;
    let mut all_num = true;
    let mut dots: usize = 0;
    while k < len
        invariant
            k <= len,
            len == s.len(),
            s == text@,
            all_digits == (forall|j: int| 0 <= j < k ==> is_digit_char(s[j])),
            all_num == (forall|j: int| 0 <= j < k ==> is_num_char(s[j])),
            dots == dot_count(s.take(k as int)),
            dots <= k,
        decreases len - k,
    {
        let c = text.get_char(k);
        proof {
            lemma_dot_count_step(s, k as int);
        }
        if !digit_char_exec(c) {
            all_digits = false;
        }
        if !num_char_exec(c) {
            all_num = false;
        }
        if c == '.' {
            dots = dots + 1;
        }
        k = k + 1;
    }
    proof {
        assert(s.take(len as int) =~= s);
    }
    if all_digits {
        let mut v: u64 = 0;
        let mut over = false;
        k = 0;
        while k < len
            invariant
                k <= len,
                len == s.len(),
                s == text@,
                forall|j: int| 0 <= j < s.len() ==> is_digit_char(s[j]),
                !over ==> v == digits_val(s.take(k as int)) && v <= i64::MAX as u64,
                over ==> digits_val(s.take(k as int)) > i64::MAX,
            decreases len - k,
        {
            let c = text.get_char(k);
            assert(is_digit_char(s[k as int]));
            let d = (c as u32 - 48) as u64;
            proof {
                lemma_digits_val_step(s, k as int);
            }
            if over {
                proof {
                    assert(digits_val(s.take(k as int)) * 10 >= digits_val(s.take(k as int)));
                }
            } else if v > 922337203685477580u64 || (v == 922337203685477580u64 && d > 7) {
                over = true;
            } else {
                v = v * 10 + d;
            }
            k = k + 1;
        }
        proof {
            assert(s.take(len as int) =~= s);
        }
        if !over {
            return Ok(Expr::Int(v as i64));
        }
        // The digits denote more than an i64 holds; the text still has the
        // floating-point form, so the fallback below applies.
    }
    if all_num && dots <= 1 && digit_char_exec(text.get_char(0)) {
        return Ok(Expr::Float(text.to_owned()));
    }
    Err(QueryErr::InvalidExpr(text.to_owned()))
}

fn digit_char_exec(c: char) -> (b: bool)
    ensures
        b == is_digit_char(c),
{
    c as u32 >= 48 && c as u32 <= 57
}

fn num_char_exec(c: char) -> (b: bool)
    ensures
        b == is_num_char(c),
{
    digit_char_exec(c) || c == '.'
}

} // verus!
