//! Calculator mode: a query that starts with `=` is an arithmetic
//! expression, evaluated by the `meval` crate.

use vstd::prelude::*;
use vstd::string::{StrSliceExecFns, StringExecFns};
use crate::results::{ActionView, ResultAction, ResultView, SearchMode, SearchResult};
use crate::text::{trim, trimmed};

verus! {

/// Whether a query asks for a calculation: its first character, leading
/// whitespace aside, is `=`.
pub open spec fn is_calculation(query: Seq<char>) -> bool {
    trimmed(query).len() > 0 && trimmed(query)[0] == '='
}

/// The expression of a calculation: what follows the `=`, trimmed.
pub open spec fn expression_of(query: Seq<char>) -> Seq<char> {
    trimmed(trimmed(query).skip(1))
}

/// The row that shows the outcome of a calculation. `value` is the formatted
/// number, or `None` where the evaluation failed; the row then shows the
/// word `ERROR`, which can be copied like a number.
pub open spec fn calculator_row(value: Option<Seq<char>>) -> ResultView {
    let shown = match value {
        Some(number) => number,
        None => "ERROR"@,
    };
    ResultView {
        mode: SearchMode::Calculator,
        text: "= "@ + shown,
        action: Some(ActionView::Copy { text: shown }),
    }
}

/// The characters of an optional string.
pub open spec fn value_of(value: Option<String>) -> Option<Seq<char>> {
    match value {
        Some(text) => Some(text@),
        None => None,
    }
}

/// The characters that the evaluator skips between the parts of an
/// expression: space, tab, carriage return and line feed.
pub open spec fn is_blank(c: char) -> bool {
    c == ' ' || c == '\t' || c == '\r' || c == '\n'
}

/// Whether a text holds blanks and nothing else.
pub open spec fn only_blanks(text: Seq<char>) -> bool {
    forall|i: int| 0 <= i < text.len() ==> is_blank(#[trigger] text[i])
}

/// Whether `text` holds blanks and nothing else.
fn holds_only_blanks(text: &str) -> (blank: bool)
    ensures
        blank == only_blanks(text@),
{
    let mut blank = true;
    for c in it: text.chars()
        invariant
            it.seq() == text@,
            blank == only_blanks(text@.take(it.index() as int)),
    {
        proof {
            let before = text@.take(it.index() as int);
            let after = text@.take(it.index() + 1);
            assert(after =~= before.push(c));
            if only_blanks(before) && is_blank(c) {
                assert forall|k: int| 0 <= k < after.len() implies is_blank(
                    #[trigger] after[k],
                ) by {
                    if k < before.len() {
                        assert(after[k] == before[k]);
                    }
                }
            }
            if only_blanks(after) {
                assert forall|k: int| 0 <= k < before.len() implies is_blank(
                    #[trigger] before[k],
                ) by {
                    assert(before[k] == after[k]);
                }
                assert(is_blank(after[after.len() - 1]));
            }
        }
        if !(c == ' ' || c == '\t' || c == '\r' || c == '\n') {
            blank = false;
        }
    }
    assert(text@.take(text@.len() as int) =~= text@);
    blank
}

/// Whether `meval::eval_str` returns a number for `expr`, and no error. The
/// evaluator fails on a text that is no well-formed expression, on a name
/// that is no built-in constant or function, and on a function with the
/// wrong number of arguments; each is a matter of the text alone.
pub uninterp spec fn evaluates(expr: Seq<char>) -> bool;

/// Whether an expression has a value: it is no text of blanks, and the
/// evaluator returns a number for it.
pub open spec fn has_value(expr: Seq<char>) -> bool {
    !(expr.len() > 0 && only_blanks(expr)) && evaluates(expr)
}

/// Calls `meval::eval_str` and formats the number it returns with
/// `to_string`; `None` stands for any failure to parse or to evaluate.
///
/// Whether a number is returned is fixed by the text. Nothing is promised of
/// the number: the evaluator computes in floating point, with functions
/// whose precision varies between platforms. Its tokenizer panics where it
/// is left with blanks and nothing else, which happens on a text of one or
/// more blanks and on no other.
#[verifier::external_body]
fn evaluate(expr: &str) -> (value: Option<String>)
    requires
        expr@.len() == 0 || !only_blanks(expr@),
    ensures
        (value is Some) == evaluates(expr@),
{
    match meval::eval_str(expr) {
        Ok(number) => Some(number.to_string()),
        Err(_) => None,
    }
}

/// Evaluates an expression with the evaluator's built-in constants and
/// functions. Returns the number as it prints where the expression has a
/// value, and `None` where it has none. A text of blanks is no expression.
pub fn evaluate_expression(expr: &str) -> (value: Option<String>)
    ensures
        (value is Some) == has_value(expr@),
{
    if !expr.is_empty() && holds_only_blanks(expr) {
        None
    } else {
        evaluate(expr)
    }
}

/// Extracts the expression from a query, or returns `None` where the query
/// is no calculation.
pub fn calculator_expression(query: &str) -> (expr: Option<String>)
    ensures
        expr matches Some(text) ==> is_calculation(query@) && text@ == expression_of(query@),
        expr is None ==> !is_calculation(query@),
{
    let stripped = trim(query);
    let len = stripped.unicode_len();
    if len > 0 && stripped.get_char(0) == '=' {
        let rest = stripped.substring_char(1, len);
        Some(trim(rest).to_owned())
    } else {
        None
    }
}

/// Builds the row for the outcome of an evaluation.
pub fn calculator_result(value: Option<String>) -> (row: SearchResult)
    ensures
        row@ == calculator_row(value_of(value)),
{
    let shown = match value {
        Some(number) => number,
        None => String::from_str("ERROR"),
    };
    let text = String::from_str("= ").concat(shown.as_str());
    SearchResult {
        mode: SearchMode::Calculator,
        text,
        action: Some(ResultAction::Copy { text: shown }),
    }
}

} // verus!
