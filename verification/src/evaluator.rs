//! The boundary to the `meval` crate, which does all parsing and arithmetic.
//!
//! Nothing in this file is proved: the contract of [`eval_str`] is taken from
//! the source of `meval` 0.2.0 and believed.

use vstd::prelude::*;
use crate::blank::all_space;

verus! {

/// What `meval::eval_str` holds against an expression: the text that its
/// error displays as, or `None` where it returns a number.
///
/// Whether an expression is turned down, and in which words, is settled by
/// its tokens alone. The number computed for an accepted expression gets no
/// name here: it comes out of the machine's floating-point routines.
pub uninterp spec fn rejection(expr: Seq<char>) -> Option<Seq<char>>;

/// The expressions on which `meval::eval_str` returns: the empty one, and all
/// that hold something besides white space. On a text of white space alone its
/// tokenizer panics.
pub open spec fn evaluable(expr: Seq<char>) -> bool {
    expr.len() == 0 || !all_space(expr)
}

/// Calls `meval::eval_str` and hands its outcome back as plain values: a
/// number as the 64 bits of its IEEE 754 binary64 form, an error as the text
/// that the `Display` impl of `meval::Error` writes.
///
/// Believed of it: the call fails exactly where [`rejection`] gives a text,
/// which is then the text returned; and the empty expression is turned down
/// (the tokenizer reports a missing argument).
#[verifier::external_body]
pub(crate) fn eval_str(expr: &str) -> (outcome: Result<u64, String>)
    requires
        evaluable(expr@),
    ensures
        outcome is Ok <==> rejection(expr@) is None,
        outcome matches Err(description) ==> rejection(expr@) == Some(description@),
        expr@.len() == 0 ==> outcome is Err,
{
    match meval::eval_str(expr) {
        Ok(value) => Ok(value.to_bits()),
        Err(error) => Err(error.to_string()),
    }
}

} // verus!
