//! An adapter between a host that holds an arithmetic expression as text and
//! the `meval` evaluator: every text is answered with either a number or a
//! message that starts with `Error: `.
//!
//! A number travels as the 64 bits of its IEEE 754 binary64 form. The grammar
//! of expressions and the arithmetic are the evaluator's; what is proved here
//! is that every text is answered, when the answer is a failure, and what the
//! failure message then holds.

use vstd::prelude::*;

pub mod blank;
pub mod evaluator;

use crate::blank::{all_space, is_blank};
use crate::evaluator::{eval_str, rejection};

verus! {

/// The words that open every failure message.
pub const ERROR_PREFIX: &'static str = "Error: ";

/// The failure message for an error that the evaluator describes as
/// `description`.
pub open spec fn error_text(description: Seq<char>) -> Seq<char> {
    ERROR_PREFIX@ + description
}

/// The expression that the evaluator is asked about: a text of white space
/// alone stands for the empty expression, every other text for itself.
pub open spec fn submitted(expr: Seq<char>) -> Seq<char> {
    if all_space(expr) {
        Seq::empty()
    } else {
        expr
    }
}

/// Whether `answer` is what [`calculate`] owes for `expr`: a number where the
/// evaluator holds nothing against the submitted expression, else the failure
/// message made of its description.
pub open spec fn answers(expr: Seq<char>, answer: Result<u64, String>) -> bool {
    match rejection(submitted(expr)) {
        None => answer is Ok,
        Some(description) => answer matches Err(message) && message@ == error_text(description),
    }
}

/// Builds the failure message for `description`.
pub fn error_message(description: &str) -> (message: String)
    ensures
        message@ == error_text(description@),
{
    String::from_str(ERROR_PREFIX).concat(description)
}

/// Turns an outcome of the evaluator into the answer for the host: a number
/// passes unchanged, a description becomes a failure message.
pub fn deliver(outcome: Result<u64, String>) -> (answer: Result<u64, String>)
    ensures
        match outcome {
            Ok(bits) => answer == Ok::<u64, String>(bits),
            Err(description) => answer matches Err(message) && message@ == error_text(
                description@,
            ),
        },
{
    match outcome {
        Ok(bits) => Ok(bits),
        Err(description) => Err(error_message(description.as_str())),
    }
}

/// Evaluates `expr` and answers with the number it stands for, or with the
/// message of the error that the evaluator found in it.
///
/// Every text is answered. A text of white space alone is evaluated as the
/// empty expression, and so fails as that one does.
pub fn calculate(expr: &str) -> (answer: Result<u64, String>)
    ensures
        answers(expr@, answer),
        answer is Err <==> rejection(submitted(expr@)) is Some,
        all_space(expr@) ==> answer is Err,
        answer matches Err(message) ==> message@.len() > 0 && ERROR_PREFIX@.is_prefix_of(
            message@,
        ),
{
    let outcome = if is_blank(expr) {
        let empty = "";
        proof {
            reveal_strlit("");
            assert(empty@ =~= Seq::<char>::empty());
        }
        eval_str(empty)
    } else {
        eval_str(expr)
    };
    proof {
        if outcome is Err {
            lemma_error_text_opens_with_prefix(outcome->Err_0@);
        }
    }
    deliver(outcome)
}

/// A failure message is never empty: it opens with [`ERROR_PREFIX`], seven
/// characters long, and the evaluator's description follows.
pub proof fn lemma_error_text_opens_with_prefix(description: Seq<char>)
    ensures
        ERROR_PREFIX@.len() == 7,
        error_text(description).len() == 7 + description.len(),
        ERROR_PREFIX@.is_prefix_of(error_text(description)),
        error_text(description).skip(7) == description,
{
    reveal_strlit("Error: ");
    assert(error_text(description).subrange(0, 7) =~= ERROR_PREFIX@);
    assert(error_text(description).skip(7) =~= description);
}

/// Asking twice gives no different outcome: two answers to one text are both
/// numbers or both failures, and two failures carry the same message.
pub proof fn lemma_same_text_same_outcome(
    expr: Seq<char>,
    first: Result<u64, String>,
    second: Result<u64, String>,
)
    requires
        answers(expr, first),
        answers(expr, second),
    ensures
        first is Ok <==> second is Ok,
        first matches Err(message) ==> second matches Err(again) && message@ == again@,
{
}

} // verus!
