//! The match classifier: which tier, if any, a candidate falls into for a
//! query.

use vstd::prelude::*;
use crate::text::{chars_of, is_prefix, normalize, normalized};

verus! {

/// Priority class of a match. The variants are listed from the highest
/// priority to the lowest.
#[derive(Clone, Copy, Debug, PartialEq, Eq, PartialOrd, Ord, Hash, Structural)]
pub enum MatchTier {
    Alias,
    Exact,
    PrefixMatch,
    FuzzyMatch,
}

impl MatchTier {
    /// Position in the priority order; a lower rank wins.
    pub open spec fn rank(self) -> nat {
        match self {
            MatchTier::Alias => 0,
            MatchTier::Exact => 1,
            MatchTier::PrefixMatch => 2,
            MatchTier::FuzzyMatch => 3,
        }
    }

    /// Position in the priority order; a lower number wins.
    pub fn priority(&self) -> (out: u8)
        ensures
            out == self.rank(),
    {
        match self {
            MatchTier::Alias => 0,
            MatchTier::Exact => 1,
            MatchTier::PrefixMatch => 2,
            MatchTier::FuzzyMatch => 3,
        }
    }
}

/// Whether a candidate meets the condition of one tier, taken by itself.
///
/// All comparisons are made on normalized text, the alias target included.
pub open spec fn qualifies(
    tier: MatchTier,
    name: Seq<char>,
    query: Seq<char>,
    alias_target: Option<Seq<char>>,
    fuzzy_hit: bool,
) -> bool {
    match tier {
        MatchTier::Alias => alias_target matches Some(target) && normalize(target) == normalize(
            name,
        ),
        MatchTier::Exact => normalize(name) == normalize(query),
        MatchTier::PrefixMatch => normalize(query).is_prefix_of(normalize(name)),
        MatchTier::FuzzyMatch => fuzzy_hit,
    }
}

/// The tier of a candidate: the first tier, in priority order, whose
/// condition it meets.
pub open spec fn classify_spec(
    name: Seq<char>,
    query: Seq<char>,
    alias_target: Option<Seq<char>>,
    fuzzy_hit: bool,
) -> Option<MatchTier> {
    if qualifies(MatchTier::Alias, name, query, alias_target, fuzzy_hit) {
        Some(MatchTier::Alias)
    } else if qualifies(MatchTier::Exact, name, query, alias_target, fuzzy_hit) {
        Some(MatchTier::Exact)
    } else if qualifies(MatchTier::PrefixMatch, name, query, alias_target, fuzzy_hit) {
        Some(MatchTier::PrefixMatch)
    } else if qualifies(MatchTier::FuzzyMatch, name, query, alias_target, fuzzy_hit) {
        Some(MatchTier::FuzzyMatch)
    } else {
        None
    }
}

/// The characters of an optional string slice.
pub open spec fn text_of(s: Option<&str>) -> Option<Seq<char>> {
    match s {
        Some(t) => Some(t@),
        None => None,
    }
}

/// Classifies one candidate for one query.
///
/// `alias_target` is the name that the alias table prefers for this query, if
/// any; `fuzzy_hit` is the verdict of the fuzzy matcher, which the caller
/// supplies. Every input is accepted, empty strings included.
pub fn classify(candidate_name: &str, query: &str, alias_target: Option<&str>, fuzzy_hit: bool) -> (tier:
    Option<MatchTier>)
    ensures
        tier == classify_spec(candidate_name@, query@, text_of(alias_target), fuzzy_hit),
{
    let name = normalized(candidate_name);
    let wanted = normalized(query);
    let aliased = match alias_target {
        Some(target) => normalized(target) == name,
        None => false,
    };
    if aliased {
        Some(MatchTier::Alias)
    } else if name == wanted {
        Some(MatchTier::Exact)
    } else if is_prefix(&chars_of(wanted.as_str()), &chars_of(name.as_str())) {
        Some(MatchTier::PrefixMatch)
    } else if fuzzy_hit {
        Some(MatchTier::FuzzyMatch)
    } else {
        None
    }
}

/// A candidate that meets the conditions of several tiers is classified into
/// the one of highest priority, and into no other; one that meets none is
/// left out.
pub proof fn lemma_classify_picks_highest_tier(
    name: Seq<char>,
    query: Seq<char>,
    alias_target: Option<Seq<char>>,
    fuzzy_hit: bool,
)
    ensures
        forall|tier: MatchTier|
            classify_spec(name, query, alias_target, fuzzy_hit) == Some(tier) <==> (
            #[trigger] qualifies(tier, name, query, alias_target, fuzzy_hit) && forall|
                higher: MatchTier,
            |
                higher.rank() < tier.rank() ==> !#[trigger] qualifies(
                    higher,
                    name,
                    query,
                    alias_target,
                    fuzzy_hit,
                )),
        classify_spec(name, query, alias_target, fuzzy_hit) is None <==> forall|tier: MatchTier|
            !#[trigger] qualifies(tier, name, query, alias_target, fuzzy_hit),
{
}

} // verus!
