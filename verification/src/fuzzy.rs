//! The fuzzy-match capability, supplied by the `fuzzy-matcher` crate.

use fuzzy_matcher::skim::SkimMatcherV2;
use fuzzy_matcher::FuzzyMatcher;
use vstd::prelude::*;
use vstd::string::StrSliceExecFns;
use crate::text::{lowercase, to_lowercase};

verus! {

/// Longest pattern, in characters, that is handed to the matcher. Its scores
/// are 32-bit sums to which a character of the pattern adds 32 at most: 16
/// for the match and 16 of bonus. Up to this length, 2^26 - 1, no sum
/// reaches 2^31. The length of the text that is matched adds nothing.
pub const MAX_MATCH_LEN: usize = 0x3FF_FFFF;

/// The score that a `SkimMatcherV2` in its default configuration gives to
/// `choice` for `pattern`, or `None` where `pattern` does not match.
pub uninterp spec fn skim_score(choice: Seq<char>, pattern: Seq<char>) -> Option<i64>;

/// Calls `SkimMatcherV2::fuzzy_match` on a matcher in its default
/// configuration. The matcher keeps no state between calls that a result
/// depends on, so the score is that of the two texts alone.
#[verifier::external_body]
fn skim_match(choice: &str, pattern: &str) -> (score: Option<i64>)
    requires
        pattern@.len() <= MAX_MATCH_LEN,
    ensures
        score == skim_score(choice@, pattern@),
{
    SkimMatcherV2::default().fuzzy_match(choice, pattern)
}

/// The fuzzy score of a candidate name for a query: both are lower-cased and
/// handed to the matcher. A query whose lower-cased text is longer than
/// [`MAX_MATCH_LEN`] matches nothing.
pub open spec fn fuzzy_score(name: Seq<char>, query: Seq<char>) -> Option<i64> {
    let choice = lowercase(name);
    let pattern = lowercase(query);
    if pattern.len() <= MAX_MATCH_LEN {
        skim_score(choice, pattern)
    } else {
        None
    }
}

/// Whether `query` fuzzy-matches `name`.
pub open spec fn fuzzy_hit(name: Seq<char>, query: Seq<char>) -> bool {
    fuzzy_score(name, query) is Some
}

/// Scores `name` against `query` with the fuzzy matcher, or returns `None`
/// where the query does not match or is too long to be matched.
pub fn fuzzy_match(name: &str, query: &str) -> (score: Option<i64>)
    ensures
        score == fuzzy_score(name@, query@),
{
    let pattern = to_lowercase(query);
    if pattern.as_str().unicode_len() <= MAX_MATCH_LEN {
        let choice = to_lowercase(name);
        skim_match(choice.as_str(), pattern.as_str())
    } else {
        None
    }
}

} // verus!
