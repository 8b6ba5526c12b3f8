//! Regular-expression matching on text, provided by the `regex` crate.
use vstd::prelude::*;
use crate::models::opt_view;

verus! {

/// What `regex::Regex::new(pattern)` followed by `replace_all(haystack, replacement)`
/// yields: `None` when the pattern does not compile, otherwise the text with every
/// non-overlapping match replaced.
pub uninterp spec fn regex_replaced_all(pattern: Seq<char>, haystack: Seq<char>, replacement: Seq<char>) -> Option<Seq<char>>;

/// What `regex::Regex::new(pattern)` followed by `captures(haystack)` yields:
/// `None` when the pattern does not compile; `Some(None)` when nothing matches;
/// otherwise the text of every capture group of the leftmost-first match
/// (group 0 being the whole match), `None` for a group that did not take part.
pub uninterp spec fn regex_capture_groups(pattern: Seq<char>, haystack: Seq<char>) -> Option<Option<Seq<Option<Seq<char>>>>>;

/// Character view of optional capture groups.
pub open spec fn groups_view(g: Option<Option<Vec<Option<String>>>>) -> Option<Option<Seq<Option<Seq<char>>>>> {
    match g {
        None => None,
        Some(None) => Some(None),
        Some(Some(v)) => Some(Some(v@.map_values(|o: Option<String>| opt_view(o)))),
    }
}

/// Compiles `pattern` with `regex::Regex::new` and replaces every match in
/// `haystack` by `replacement` with `Regex::replace_all`; `None` when the
/// pattern does not compile.  The result is taken to be the named function
/// [`regex_replaced_all`] of the three texts; nothing more is claimed of it.
#[verifier::external_body]
pub(crate) fn regex_replace_all(pattern: &str, haystack: &str, replacement: &str) -> (r: Option<String>)
    ensures
        opt_view(r) == regex_replaced_all(pattern@, haystack@, replacement@),
{
    match regex::Regex::new(pattern) {
        Ok(re) => Some(re.replace_all(haystack, replacement).into_owned()),
        Err(_) => None,
    }
}

/// Compiles `pattern` with `regex::Regex::new` and returns the capture groups
/// of `Regex::captures(haystack)` as owned texts.  The result is taken to be
/// the named function [`regex_capture_groups`] of the two texts.
#[verifier::external_body]
pub(crate) fn regex_captures(pattern: &str, haystack: &str) -> (r: Option<Option<Vec<Option<String>>>>)
    ensures
        groups_view(r) == regex_capture_groups(pattern@, haystack@),
{
    match regex::Regex::new(pattern) {
        Ok(re) => Some(re.captures(haystack).map(|c| c.iter().map(|m| m.map(|m| m.as_str().to_string())).collect())),
        Err(_) => None,
    }
}

} // verus!
