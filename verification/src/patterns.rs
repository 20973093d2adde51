//! Regular-expression matching through the `regex` crate.
use vstd::prelude::*;

verus! {

/// What the `regex` crate finds for a pattern and a text: `None` when the
/// pattern does not compile (`Regex::new` fails); otherwise, for each
/// successive non-overlapping leftmost-first match of the pattern in the text
/// (`Regex::captures_iter`), the text of capture group 1, or `None` when that
/// group took no part in the match.
pub uninterp spec fn regex_group1_matches(pattern: Seq<char>, text: Seq<char>) -> Option<
    Seq<Option<Seq<char>>>,
>;

/// Group-1 captures of every match of `pattern` in `text`, or no match list
/// when `pattern` does not compile; see `regex_group1_matches`.
pub open spec fn group1_captures(pattern: Seq<char>, text: Seq<char>) -> Seq<Option<Seq<char>>> {
    match regex_group1_matches(pattern, text) {
        Some(g) => g,
        None => seq![],
    }
}

/// Compiles `pattern` with `regex::Regex::new` and collects, for each match of
/// `Regex::captures_iter` over `text`, the text of capture group 1.  The
/// result is named `regex_group1_matches` of the two strings.
#[verifier::external_body]
pub(crate) fn regex_group1(pattern: &str, text: &str) -> (r: Option<Vec<Option<String>>>)
    ensures
        r.deep_view() == regex_group1_matches(pattern@, text@),
{
    regex::Regex::new(pattern).ok().map(
        |re| re.captures_iter(text).map(|c| c.get(1).map(|m| m.as_str().to_string())).collect(),
    )
}

/// The group-1 captures of `pattern` in `text`; an empty list when the
/// pattern does not compile.
pub fn captures_group1(pattern: &str, text: &str) -> (r: Vec<Option<String>>)
    ensures
        r.deep_view() == group1_captures(pattern@, text@),
{
    match regex_group1(pattern, text) {
        Some(v) => v,
        None => Vec::new(),
    }
}

} // verus!
