//! Regular expressions, as far as the naming policy needs them. The matching
//! itself is the `regex` crate's; what it returns is named here and believed.

use regex::Regex;
use vstd::prelude::*;

verus! {

/// The capture groups of the regular expression that `pattern` compiles to, in
/// the order of their opening brackets, each with its name if it has one; the
/// first stands for the whole match. `None` where `pattern` does not compile.
pub uninterp spec fn regex_group_names(pattern: Seq<char>) -> Option<Seq<Option<Seq<char>>>>;

/// Whether `pattern` compiles to a regular expression that matches somewhere
/// in `text`: whether a search for its first match finds one.
pub uninterp spec fn regex_matches(pattern: Seq<char>, text: Seq<char>) -> bool;

/// What the group named `group` has captured in the first match of `pattern`
/// in `text`; `None` where the pattern has no such group or the group took no
/// part in the match.
pub uninterp spec fn regex_group(pattern: Seq<char>, text: Seq<char>, group: Seq<char>) -> Option<
    Seq<char>,
>;

/// Compiles `pattern` with `Regex::new` and lists what `Regex::capture_names`
/// yields for it, in that order. Believed: the list is the one named
/// `regex_group_names`, and `None` comes back exactly where the pattern does
/// not compile.
#[verifier::external_body]
pub(crate) fn group_names(pattern: &str) -> (r: Option<Vec<Option<String>>>)
    ensures
        r.deep_view() == regex_group_names(pattern@),
{
    match Regex::new(pattern) {
        Ok(re) => Some(re.capture_names().map(|name| name.map(|n| n.to_string())).collect()),
        Err(_) => None,
    }
}

/// Compiles `pattern` with `Regex::new`, searches `text` with `Regex::captures`
/// and reads the group `group` with `Captures::name`. Believed: the outer
/// `Option` is `Some` exactly where the search finds a match, which is what
/// `regex_matches` names, and `None` where the pattern does not compile; the
/// inner one is the text named `regex_group`.
#[verifier::external_body]
pub(crate) fn capture_group(pattern: &str, text: &str, group: &str) -> (r: Option<Option<String>>)
    ensures
        r.is_some() == regex_matches(pattern@, text@),
        r matches Some(found) ==> found.deep_view() == regex_group(pattern@, text@, group@),
{
    match Regex::new(pattern) {
        Ok(re) => re.captures(text).map(|caps| caps.name(group).map(|m| m.as_str().to_string())),
        Err(_) => None,
    }
}

} // verus!
