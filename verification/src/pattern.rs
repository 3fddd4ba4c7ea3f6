//! Regular-expression search, done by the `regex` crate.
use crate::text::views;
use vstd::prelude::*;

verus! {

/// What a search for `pattern` in `text` yields: `None` where `pattern` is
/// not a regular expression that the `regex` crate compiles, else the
/// successive non-overlapping matches from left to right, each as the piece
/// of `text` that matched.
pub uninterp spec fn regex_matches(pattern: Seq<char>, text: Seq<char>) -> Option<Seq<Seq<char>>>;

/// The plain-value form of a search result.
pub open spec fn matches_view(found: Option<Vec<String>>) -> Option<Seq<Seq<char>>> {
    match found {
        Some(list) => Some(views(list@)),
        None => None,
    }
}

/// Compiles `pattern` with `regex::Regex::new` and collects what
/// `Regex::find_iter` yields on `text`. Trusted: the result is the one that
/// `regex_matches` names, which says no more than that the same pattern and
/// text always give the same matches.
#[verifier::external_body]
pub(crate) fn find_all(pattern: &str, text: &str) -> (found: Option<Vec<String>>)
    ensures
        matches_view(found) == regex_matches(pattern@, text@),
{
    match regex::Regex::new(pattern) {
        Ok(re) => Some(re.find_iter(text).map(|m| m.as_str().to_string()).collect()),
        Err(_) => None,
    }
}

} // verus!
