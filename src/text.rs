//! The mathematical model of text used by the search: how a text splits into
//! lines and what it means for a line to contain a query. The few std string
//! operations the search relies on are wrapped here with contracts over that
//! model.

use vstd::prelude::*;

verus! {

/// `s` contains `pat` as a contiguous run of characters. The empty pattern is
/// contained in every text.
pub open spec fn has_substring(s: Seq<char>, pat: Seq<char>) -> bool {
    exists|i: int| 0 <= i <= s.len() - pat.len() && #[trigger] s.subrange(i, i + pat.len()) == pat
}

/// Index of the first `'\n'` in `s`, or `s.len()` when there is none.
pub open spec fn first_newline(s: Seq<char>) -> nat
    decreases s.len(),
{
    if s.len() == 0 || s[0] == '\n' {
        0
    } else {
        1 + first_newline(s.skip(1))
    }
}

/// `line` without one trailing carriage return, if it ends in one.
pub open spec fn strip_cr(line: Seq<char>) -> Seq<char> {
    if line.len() > 0 && line.last() == '\r' {
        line.drop_last()
    } else {
        line
    }
}

/// The lines of `s`, in order. A line ends at `"\n"` or `"\r\n"`, and the
/// terminator is not part of it. The final terminator is optional: a text that
/// ends with one has the same lines as the text without it. A carriage return
/// that no line feed follows stays in its line. The empty text has no lines.
pub open spec fn lines_of(s: Seq<char>) -> Seq<Seq<char>>
    decreases s.len(),
{
    if s.len() == 0 {
        seq![]
    } else if first_newline(s) < s.len() {
        let i = first_newline(s) as int;
        seq![strip_cr(s.take(i))] + lines_of(s.skip(i + 1))
    } else {
        seq![s]
    }
}

/// What case folding makes of a text: the result of `str::to_lowercase`.
pub uninterp spec fn lower_of(s: Seq<char>) -> Seq<char>;

/// The views of a sequence of string slices.
pub open spec fn views_of<'a>(lines: Seq<&'a str>) -> Seq<Seq<char>> {
    lines.map_values(|l: &'a str| l@)
}

/// Relies on `str::lines`: the lines of `s`, split at `"\n"` or `"\r\n"`, as
/// slices of `s`.
#[verifier::external_body]
pub(crate) fn split_lines<'a>(s: &'a str) -> (r: Vec<&'a str>)
    ensures
        views_of(r@) == lines_of(s@),
{
    s.lines().collect()
}

/// Relies on `str::contains` with a `&str` pattern: whether `pat` occurs in `s`.
#[verifier::external_body]
pub(crate) fn contains_str(s: &str, pat: &str) -> (r: bool)
    ensures
        r == has_substring(s@, pat@),
{
    s.contains(pat)
}

/// Relies on `str::to_lowercase`: the lowercase form of `s`, which depends on
/// the characters of `s` alone; the empty text stays empty.
#[verifier::external_body]
pub(crate) fn lowercase(s: &str) -> (r: String)
    ensures
        r@ == lower_of(s@),
        s@.len() == 0 ==> r@.len() == 0,
{
    s.to_lowercase()
}

} // verus!
