//! Regular expressions, as the `regex` crate matches them.
//!
//! Nothing in this module is proved. Each item states what the crate's
//! documentation says of one of its functions; the search itself is left
//! unspecified and only given a name, so that the rest of the library can say
//! exactly which search its results come from.

use regex::Regex;
use vstd::prelude::*;

verus! {

/// `regex::Regex`, a compiled pattern. Nothing inside it is visible here.
#[verifier::external_type_specification]
#[verifier::external_body]
pub struct ExRegex(Regex);

/// `regex::Error`, why a pattern did not compile. Nothing inside it is
/// visible here.
#[verifier::external_type_specification]
#[verifier::external_body]
pub struct ExRegexError(regex::Error);

/// A compiled pattern together with the text that it was compiled from. Only
/// [`compile`] makes one, so the two always belong together.
pub(crate) struct Pattern {
    source: String,
    compiled: Regex,
}

impl View for Pattern {
    type V = Seq<char>;

    closed spec fn view(&self) -> Seq<char> {
        self.source@
    }
}

/// Whether `Regex::new` accepts `pattern`.
pub uninterp spec fn pattern_compiles(pattern: Seq<char>) -> bool;

/// Whether `Regex::is_match` finds `pattern` anywhere in `haystack`.
pub uninterp spec fn pattern_found(pattern: Seq<char>, haystack: Seq<char>) -> bool;

/// What `Regex::captures` reports for the leftmost match of `pattern` in
/// `haystack`: `None` without a match, else one entry per capture group, group 0
/// (the whole match) first, each the text the group matched or `None` where the
/// group took no part in the match.
pub uninterp spec fn pattern_groups(pattern: Seq<char>, haystack: Seq<char>) -> Option<
    Seq<Option<Seq<char>>>,
>;

/// The texts that a list of capture groups holds.
pub open spec fn group_texts(groups: Seq<Option<String>>) -> Seq<Option<Seq<char>>> {
    Seq::new(
        groups.len(),
        |i: int|
            match groups[i] {
                Some(s) => Some(s@),
                None => None,
            },
    )
}

/// `Regex::new`: whether a pattern compiles depends on the pattern alone. The
/// compiled value is kept with the text that it came from.
#[verifier::external_body]
pub(crate) fn compile(source: &str) -> (r: Result<Pattern, regex::Error>)
    ensures
        r is Ok <==> pattern_compiles(source@),
        r matches Ok(pattern) ==> pattern@ == source@,
{
    match Regex::new(source) {
        Ok(compiled) => Ok(Pattern { source: source.to_string(), compiled }),
        Err(e) => Err(e),
    }
}

/// `Regex::is_match`: true exactly when the pattern has a match somewhere in
/// the haystack.
#[verifier::external_body]
pub(crate) fn is_match(pattern: &Pattern, haystack: &str) -> (r: bool)
    ensures
        r == pattern_found(pattern@, haystack@),
{
    pattern.compiled.is_match(haystack)
}

/// `Regex::captures`, with each group of the leftmost match copied out as an
/// owned string.
#[verifier::external_body]
pub(crate) fn captures(pattern: &Pattern, haystack: &str) -> (r: Option<Vec<Option<String>>>)
    ensures
        match r {
            Some(groups) => pattern_groups(pattern@, haystack@) == Some(group_texts(groups@)),
            None => pattern_groups(pattern@, haystack@) is None,
        },
{
    pattern.compiled.captures(haystack).map(
        |c| c.iter().map(|g| g.map(|m| m.as_str().to_string())).collect(),
    )
}

} // verus!
