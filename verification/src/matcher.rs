//! The boundary to the `regex` crate.
//!
//! Everything the library knows about regular expressions is stated here and
//! taken on trust: Verus sees a compiled `Regex` as an opaque value, and the
//! outcome of a search as an uninterpreted function of that value and of the
//! text searched.

use regex::Regex;
use vstd::prelude::*;

verus! {

/// Makes `regex::Regex`, a compiled regular expression, known as an opaque
/// type.
#[verifier::external_type_specification]
#[verifier::external_body]
pub struct ExRegex(Regex);

/// Makes `regex::Error`, the reason why a pattern did not compile, known as
/// an opaque type.
#[verifier::external_type_specification]
#[verifier::external_body]
pub struct ExRegexError(regex::Error);

/// The pattern text a regex was compiled from: what `Regex::as_str` returns.
pub uninterp spec fn regex_source(re: Regex) -> Seq<char>;

/// Whether `re` matches anywhere in `haystack`: what `Regex::is_match` returns.
pub uninterp spec fn regex_is_match(re: Regex, haystack: Seq<char>) -> bool;

/// The capture groups of the leftmost match of `re` in `haystack`, by group
/// index, each with the text it matched or `None` where it took no part;
/// `None` where there is no match. This is what `Regex::captures` finds.
pub uninterp spec fn regex_captures(re: Regex, haystack: Seq<char>) -> Option<
    Seq<Option<Seq<char>>>,
>;

/// `Regex::new` compiles a pattern.
///
/// Trusted: a regex that comes back keeps the pattern text it was given.
/// Nothing is claimed about which patterns compile.
pub assume_specification[ Regex::new ](re: &str) -> (r: Result<Regex, regex::Error>)
    ensures
        r matches Ok(compiled) ==> regex_source(compiled) == re@,
;

/// `Regex::is_match` tells whether the regex matches anywhere in the
/// haystack.
///
/// Trusted: the answer is a function of the regex and the haystack alone.
pub assume_specification[ Regex::is_match ](re: &Regex, haystack: &str) -> (b: bool)
    ensures
        b == regex_is_match(*re, haystack@),
;

/// Runs `Regex::captures` and copies the text of every group out of the
/// result, in group order.
///
/// Trusted: the groups found are a function of the regex and the haystack
/// alone.
#[verifier::external_body]
pub(crate) fn captures(re: &Regex, haystack: &str) -> (groups: Option<Vec<Option<String>>>)
    ensures
        groups.deep_view() == regex_captures(*re, haystack@),
{
    re.captures(haystack).map(
        |found| found.iter().map(|group| group.map(|m| m.as_str().to_string())).collect(),
    )
}

} // verus!
