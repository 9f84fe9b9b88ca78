//! Regular-expression matching, done by the `regex` crate. What a pattern
//! yields on a text is named, not restated: the logic built on it takes
//! those results as arguments.

use vstd::prelude::*;

verus! {

/// The pieces `Regex::split` cuts a text into (the parts no match covers,
/// in order), or `None` when the pattern does not compile.
pub uninterp spec fn regex_split(pattern: Seq<char>, text: Seq<char>) -> Option<Seq<Seq<char>>>;

/// For each successive match of `Regex::captures_iter`, the text of every
/// group (group 0 is the whole match; `None` for a group that did not take
/// part), or `None` when the pattern does not compile.
pub uninterp spec fn regex_captures(pattern: Seq<char>, text: Seq<char>) -> Option<
    Seq<Seq<Option<Seq<char>>>>,
>;

/// The view of an optional string.
pub open spec fn opt_string_view(g: Option<String>) -> Option<Seq<char>> {
    match g {
        Some(s) => Some(s@),
        None => None,
    }
}

/// The view of a capture table.
pub open spec fn captures_view(rows: Seq<Vec<Option<String>>>) -> Seq<Seq<Option<Seq<char>>>> {
    rows.map_values(|row: Vec<Option<String>>| row@.map_values(|g: Option<String>| opt_string_view(g)))
}

/// Relies on `regex::Regex::new` and `Regex::split`: the pieces of `text`
/// between the matches of `pattern`.
#[verifier::external_body]
pub(crate) fn split_by(pattern: &str, text: &str) -> (r: Option<Vec<String>>)
    ensures
        match r {
            Some(v) => regex_split(pattern@, text@) == Some(v@.map_values(|s: String| s@)),
            None => regex_split(pattern@, text@) is None,
        },
{
    match regex::Regex::new(pattern) {
        Ok(re) => Some(re.split(text).map(|p| p.to_string()).collect()),
        Err(_) => None,
    }
}

/// Relies on `regex::Regex::new` and `Regex::captures_iter`: every group of
/// every successive match of `pattern` in `text`.
#[verifier::external_body]
pub(crate) fn captures_of(pattern: &str, text: &str) -> (r: Option<Vec<Vec<Option<String>>>>)
    ensures
        match r {
            Some(v) => regex_captures(pattern@, text@) == Some(captures_view(v@)),
            None => regex_captures(pattern@, text@) is None,
        },
{
    match regex::Regex::new(pattern) {
        Ok(re) => Some(
            re.captures_iter(text).map(
                |c| c.iter().map(|g| g.map(|m| m.as_str().to_string())).collect(),
            ).collect(),
        ),
        Err(_) => None,
    }
}

} // verus!
