//! Regular expressions, as far as the library uses them: replacing every
//! match in a text, and reading the groups of the first match.
//!
//! The matching itself is the `regex` crate's. What it finds is named here and
//! not spelled out: the library's contracts say which pattern is applied to
//! which text, and what is done with the outcome.

use vstd::prelude::*;

verus! {

/// An error of the `regex` crate: the pattern could not be compiled.
#[verifier::external_type_specification]
#[verifier::external_body]
pub struct ExPatternError(regex::Error);

/// Whether the `regex` crate compiles the pattern.
pub uninterp spec fn pattern_is_valid(pattern: Seq<char>) -> bool;

/// `text` with every match of `pattern` replaced by what `with` expands to.
pub uninterp spec fn pattern_replaced(pattern: Seq<char>, text: Seq<char>, with: Seq<char>) -> Seq<
    char,
>;

/// The groups of the leftmost match of `pattern` in `text`, the whole match
/// first; a group that took no part in the match is `None`. `None` where
/// nothing matches.
pub uninterp spec fn pattern_groups(pattern: Seq<char>, text: Seq<char>) -> Option<
    Seq<Option<Seq<char>>>,
>;

/// The texts of the groups of a match.
pub open spec fn groups_view(groups: Seq<Option<String>>) -> Seq<Option<Seq<char>>> {
    groups.map_values(
        |g: Option<String>|
            match g {
                Some(s) => Some(s@),
                None => None,
            },
    )
}

/// The texts of the groups of a match, if there is one.
pub open spec fn found_view(found: Option<Vec<Option<String>>>) -> Option<Seq<Option<Seq<char>>>> {
    match found {
        Some(groups) => Some(groups_view(groups@)),
        None => None,
    }
}

/// Calls `Regex::new` and `Regex::replace_all`. Trusted: it fails exactly on
/// the patterns that do not compile, and otherwise returns the text with the
/// matches replaced, which depends on the three arguments alone.
#[verifier::external_body]
pub(crate) fn replace_all(pattern: &str, text: &str, with: &str) -> (r: Result<
    String,
    regex::Error,
>)
    ensures
        r is Ok == pattern_is_valid(pattern@),
        r matches Ok(s) ==> s@ == pattern_replaced(pattern@, text@, with@),
{
    let re = regex::Regex::new(pattern)?;
    Ok(re.replace_all(text, with).into_owned())
}

/// Calls `Regex::new` and `Regex::captures`. Trusted: it fails exactly on the
/// patterns that do not compile, and otherwise returns the groups of the
/// leftmost match, which depend on the two arguments alone.
#[verifier::external_body]
pub(crate) fn find_groups(pattern: &str, text: &str) -> (r: Result<
    Option<Vec<Option<String>>>,
    regex::Error,
>)
    ensures
        r is Ok == pattern_is_valid(pattern@),
        r matches Ok(found) ==> found_view(found) == pattern_groups(pattern@, text@),
{
    let re = regex::Regex::new(pattern)?;
    Ok(re.captures(text).map(|c| c.iter().map(|m| m.map(|m| m.as_str().to_owned())).collect()))
}

} // verus!
