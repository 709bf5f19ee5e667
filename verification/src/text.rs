//! Helpers on strings and on text made of lines.

use vstd::prelude::*;

verus! {

/// Tells whether two string slices consist of the same characters.
pub(crate) fn str_eq(a: &str, b: &str) -> (same: bool)
    ensures
        same == (a@ == b@),
{
    let x = a.to_owned();
    let y = b.to_owned();
    x == y
}

/// True when `text` ends with `suffix`.
pub open spec fn ends_with(text: Seq<char>, suffix: Seq<char>) -> bool {
    text.len() >= suffix.len() && text.subrange(text.len() - suffix.len(), text.len() as int)
        == suffix
}

/// True when `line`, which is to include its closing newline, stands in
/// `text` at the start of a line.
pub open spec fn has_line(text: Seq<char>, line: Seq<char>) -> bool {
    exists|at: int|
        0 <= at && at + line.len() <= text.len() && #[trigger] text.subrange(
            at,
            at + line.len(),
        ) == line && (at == 0 || text[at - 1] == '\n')
}

/// True when `part` stands somewhere in `text`.
pub open spec fn has_text(text: Seq<char>, part: Seq<char>) -> bool {
    exists|at: int|
        0 <= at && at + part.len() <= text.len() && #[trigger] text.subrange(at, at + part.len())
            == part
}

/// The character of the decimal digit `d`.
pub open spec fn digit_char(d: nat) -> char {
    ((48 + d) as u8) as char
}

/// The decimal digits of a natural number, without leading zeros.
pub open spec fn decimal_digits(n: nat) -> Seq<char>
    decreases n,
{
    if n < 10 {
        seq![digit_char(n)]
    } else {
        decimal_digits(n / 10).push(digit_char(n % 10))
    }
}

/// The decimal text of an integer: its digits, after a minus sign where it
/// is negative.
pub open spec fn decimal_text(value: i64) -> Seq<char> {
    if value < 0 {
        seq!['-'] + decimal_digits((-value) as nat)
    } else {
        decimal_digits(value as nat)
    }
}

} // verus!
