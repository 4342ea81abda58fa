//! The ranking engine: from a query to a flat, ordered result list.
//!
//! A query is either a calculation or a search. A search lists the
//! candidates that match, each name once, in four blocks: aliases, exact
//! matches, prefix matches and fuzzy matches. Within a block the candidates
//! keep the order in which they were registered.

use vstd::prelude::*;
use crate::aliases::AliasTable;
use crate::calc::{
    calculator_expression, calculator_result, calculator_row, evaluate_expression, expression_of,
    has_value, is_calculation, value_of,
};
use crate::fuzzy::{fuzzy_hit, fuzzy_match};
use crate::matching::{classify, classify_spec, text_of, MatchTier};
use crate::results::{
    has_text, rows_of, ActionView, ResultAction, ResultView, SearchMode, SearchResult,
};
use crate::text::{trim, trimmed};

verus! {

/// Where a candidate comes from, and with it what selecting it does.
#[derive(Clone, Debug, PartialEq, Eq)]
pub enum Origin {
    /// A launchable file.
    Path { path: String },
    /// A callback that a script registered under a name.
    Callback { name: String },
}

/// An entry that a search can find.
#[derive(Clone, Debug, PartialEq, Eq)]
pub struct Candidate {
    pub name: String,
    pub origin: Origin,
}

/// The mathematical value of an [`Origin`].
pub enum OriginView {
    Path { path: Seq<char> },
    Callback { name: Seq<char> },
}

/// The mathematical value of a [`Candidate`].
pub struct CandidateView {
    pub name: Seq<char>,
    pub origin: OriginView,
}

impl View for Origin {
    type V = OriginView;

    open spec fn view(&self) -> OriginView {
        match self {
            Origin::Path { path } => OriginView::Path { path: path@ },
            Origin::Callback { name } => OriginView::Callback { name: name@ },
        }
    }
}

impl View for Candidate {
    type V = CandidateView;

    open spec fn view(&self) -> CandidateView {
        CandidateView { name: self.name@, origin: self.origin@ }
    }
}

/// The values of a list of candidates, one by one.
pub open spec fn candidates_of(candidates: Seq<Candidate>) -> Seq<CandidateView> {
    candidates.map_values(|c: Candidate| c@)
}

/// The row that lists a candidate: its name, and the action of its origin.
pub open spec fn result_of(candidate: CandidateView) -> ResultView {
    ResultView {
        mode: SearchMode::Search,
        text: candidate.name,
        action: Some(
            match candidate.origin {
                OriginView::Path { path } => ActionView::Open { path },
                OriginView::Callback { name } => ActionView::Lua { name },
            },
        ),
    }
}

/// The name that the alias table prefers for a query. The table is consulted
/// with the trimmed query.
pub open spec fn alias_target(aliases: Map<Seq<char>, Seq<char>>, query: Seq<char>) -> Option<
    Seq<char>,
> {
    if aliases.contains_key(trimmed(query)) {
        Some(aliases[trimmed(query)])
    } else {
        None
    }
}

/// The tier of a candidate name for a query, or `None` where the query does
/// not match it.
pub open spec fn tier_of(aliases: Map<Seq<char>, Seq<char>>, query: Seq<char>, name: Seq<char>)
    -> Option<MatchTier> {
    classify_spec(name, query, alias_target(aliases, query), fuzzy_hit(name, query))
}

/// Whether some candidate has the name `name`.
pub open spec fn has_name(candidates: Seq<CandidateView>, name: Seq<char>) -> bool {
    exists|i: int| 0 <= i < candidates.len() && (#[trigger] candidates[i]).name == name
}

/// Whether the name `later` is first registered after `earlier`: some
/// candidate has the name `earlier`, and up to it none has the name `later`.
pub open spec fn registered_before(
    candidates: Seq<CandidateView>,
    earlier: Seq<char>,
    later: Seq<char>,
) -> bool {
    exists|p: int|
        0 <= p < candidates.len() && (#[trigger] candidates[p]).name == earlier && !has_name(
            candidates.take(p + 1),
            later,
        )
}

/// The candidates without those whose name an earlier candidate has.
pub open spec fn first_by_name(candidates: Seq<CandidateView>) -> Seq<CandidateView>
    decreases candidates.len(),
{
    if candidates.len() == 0 {
        Seq::empty()
    } else {
        let earlier = first_by_name(candidates.drop_last());
        if has_name(candidates.drop_last(), candidates.last().name) {
            earlier
        } else {
            earlier.push(candidates.last())
        }
    }
}

/// The test for membership in one tier.
pub open spec fn in_tier(aliases: Map<Seq<char>, Seq<char>>, query: Seq<char>, tier: MatchTier)
    -> spec_fn(CandidateView) -> bool {
    |c: CandidateView| tier_of(aliases, query, c.name) == Some(tier)
}

/// [`result_of`] as a function value.
pub open spec fn as_result() -> spec_fn(CandidateView) -> ResultView {
    |c: CandidateView| result_of(c)
}

/// The rows of one tier: the candidates of that tier, each name once, in
/// registration order.
pub open spec fn tier_block(
    aliases: Map<Seq<char>, Seq<char>>,
    query: Seq<char>,
    candidates: Seq<CandidateView>,
    tier: MatchTier,
) -> Seq<ResultView> {
    first_by_name(candidates).filter(in_tier(aliases, query, tier)).map_values(as_result())
}

/// The result list of a search: the four tiers, from the highest priority to
/// the lowest.
pub open spec fn ranked(
    aliases: Map<Seq<char>, Seq<char>>,
    query: Seq<char>,
    candidates: Seq<CandidateView>,
) -> Seq<ResultView> {
    tier_block(aliases, query, candidates, MatchTier::Alias) + tier_block(
        aliases,
        query,
        candidates,
        MatchTier::Exact,
    ) + tier_block(aliases, query, candidates, MatchTier::PrefixMatch) + tier_block(
        aliases,
        query,
        candidates,
        MatchTier::FuzzyMatch,
    )
}

/// Whether `value` can be the outcome of evaluating the expression of a
/// query: a number where the expression has a value, none where it has not.
/// Of a query that is no calculation nothing is evaluated.
pub open spec fn outcome_fits(query: Seq<char>, value: Option<Seq<char>>) -> bool {
    query.len() > 0 && is_calculation(query) ==> (value is Some) == has_value(
        expression_of(query),
    )
}

/// The result list of a query. An empty query has no results. A
/// calculation has one row, for the outcome `value` of the evaluation. Any
/// other query is a search.
pub open spec fn search_rows(
    aliases: Map<Seq<char>, Seq<char>>,
    candidates: Seq<CandidateView>,
    query: Seq<char>,
    value: Option<Seq<char>>,
) -> Seq<ResultView> {
    if query.len() == 0 {
        Seq::empty()
    } else if is_calculation(query) {
        seq![calculator_row(value)]
    } else {
        ranked(aliases, query, candidates)
    }
}

/// Whether the candidate at position `i` adds a row to the block of `tier`:
/// it belongs to the tier, and no earlier candidate has its name.
pub open spec fn joins_block(
    aliases: Map<Seq<char>, Seq<char>>,
    query: Seq<char>,
    candidates: Seq<CandidateView>,
    i: int,
    tier: MatchTier,
) -> bool {
    tier_of(aliases, query, candidates[i].name) == Some(tier) && !has_name(
        candidates.take(i),
        candidates[i].name,
    )
}

/// How a block grows when one more candidate is taken into account: the
/// candidate is appended where it belongs to the tier and no earlier
/// candidate has its name.
pub proof fn lemma_block_extends(
    aliases: Map<Seq<char>, Seq<char>>,
    query: Seq<char>,
    candidates: Seq<CandidateView>,
    i: int,
    tier: MatchTier,
)
    requires
        0 <= i < candidates.len(),
    ensures
        tier_block(aliases, query, candidates.take(i + 1), tier) == (if joins_block(
            aliases,
            query,
            candidates,
            i,
            tier,
        ) {
            tier_block(aliases, query, candidates.take(i), tier).push(result_of(candidates[i]))
        } else {
            tier_block(aliases, query, candidates.take(i), tier)
        }),
{
    let before = candidates.take(i);
    let kept = first_by_name(before);
    assert(candidates.take(i + 1).drop_last() =~= before);
    if !has_name(before, candidates[i].name) {
        assert(kept.push(candidates[i]).drop_last() =~= kept);
        reveal(Seq::filter);
    }
}

/// Whether `row` lists a match: it shows the name of a candidate that the
/// query matches, and it is a search row with an action.
pub open spec fn shows_match(
    aliases: Map<Seq<char>, Seq<char>>,
    query: Seq<char>,
    candidates: Seq<CandidateView>,
    row: ResultView,
) -> bool {
    &&& tier_of(aliases, query, row.text) is Some
    &&& has_name(candidates, row.text)
    &&& row.mode == SearchMode::Search
    &&& row.action is Some
}

/// Whether `row` lists a match of `tier`.
pub open spec fn lists_match(
    aliases: Map<Seq<char>, Seq<char>>,
    query: Seq<char>,
    candidates: Seq<CandidateView>,
    row: ResultView,
    tier: MatchTier,
) -> bool {
    tier_of(aliases, query, row.text) == Some(tier) && shows_match(
        aliases,
        query,
        candidates,
        row,
    )
}

/// A block lists the names of its tier and no others: every row of the block
/// of `tier` shows the name of a candidate whose tier is `tier`.
pub proof fn lemma_block_rows(
    aliases: Map<Seq<char>, Seq<char>>,
    query: Seq<char>,
    candidates: Seq<CandidateView>,
    tier: MatchTier,
)
    ensures
        forall|k: int|
            0 <= k < tier_block(aliases, query, candidates, tier).len() ==> lists_match(
                aliases,
                query,
                candidates,
                #[trigger] tier_block(aliases, query, candidates, tier)[k],
                tier,
            ),
    decreases candidates.len(),
{
    if candidates.len() > 0 {
        let n = candidates.len() - 1;
        let rest = candidates.drop_last();
        assert(candidates.take(n + 1) =~= candidates);
        lemma_block_extends(aliases, query, candidates, n, tier);
        lemma_block_rows(aliases, query, rest, tier);
        let block = tier_block(aliases, query, candidates, tier);
        let shorter = tier_block(aliases, query, rest, tier);
        assert forall|k: int| 0 <= k < block.len() implies lists_match(
            aliases,
            query,
            candidates,
            #[trigger] block[k],
            tier,
        ) by {
            if k < shorter.len() {
                let row = shorter[k];
                assert(block[k] == row);
                let j = choose|j: int| 0 <= j < rest.len() && (#[trigger] rest[j]).name == row.text;
                assert(candidates[j].name == row.text);
            } else {
                assert(block[k] == result_of(candidates[n]));
                assert(candidates[n].name == block[k].text);
            }
        }
    } else {
        reveal(Seq::filter);
    }
}

/// A candidate name of a tier is listed in that tier's block if and only if
/// some candidate has it.
pub proof fn lemma_block_lists_name(
    aliases: Map<Seq<char>, Seq<char>>,
    query: Seq<char>,
    candidates: Seq<CandidateView>,
    tier: MatchTier,
    name: Seq<char>,
)
    requires
        tier_of(aliases, query, name) == Some(tier),
    ensures
        has_name(candidates, name) <==> has_text(
            tier_block(aliases, query, candidates, tier),
            name,
        ),
    decreases candidates.len(),
{
    let block = tier_block(aliases, query, candidates, tier);
    if candidates.len() > 0 {
        let n = candidates.len() - 1;
        let rest = candidates.drop_last();
        let last = candidates[n];
        assert(candidates.take(n + 1) =~= candidates);
        lemma_block_extends(aliases, query, candidates, n, tier);
        lemma_block_lists_name(aliases, query, rest, tier, name);
        let shorter = tier_block(aliases, query, rest, tier);
        if has_name(candidates, name) {
            if has_name(rest, name) {
                let k = choose|k: int| 0 <= k < shorter.len() && (#[trigger] shorter[k]).text == name;
                assert(block[k].text == name);
            } else {
                let j = choose|j: int|
                    0 <= j < candidates.len() && (#[trigger] candidates[j]).name == name;
                if j < n {
                    assert(rest[j].name == name);
                }
                assert(block[block.len() - 1].text == name);
            }
        }
        if has_text(block, name) {
            let k = choose|k: int| 0 <= k < block.len() && (#[trigger] block[k]).text == name;
            if k < shorter.len() {
                assert(shorter[k].text == name);
                let j = choose|j: int| 0 <= j < rest.len() && (#[trigger] rest[j]).name == name;
                assert(candidates[j].name == name);
            } else {
                assert(candidates[n].name == name);
            }
        }
    } else {
        reveal(Seq::filter);
    }
}

/// Within one block no two rows show the same text.
pub proof fn lemma_block_texts_distinct(
    aliases: Map<Seq<char>, Seq<char>>,
    query: Seq<char>,
    candidates: Seq<CandidateView>,
    tier: MatchTier,
)
    ensures
        forall|i: int, j: int|
            0 <= i < j < tier_block(aliases, query, candidates, tier).len() ==> (
            #[trigger] tier_block(aliases, query, candidates, tier)[i]).text != (
            #[trigger] tier_block(aliases, query, candidates, tier)[j]).text,
    decreases candidates.len(),
{
    let block = tier_block(aliases, query, candidates, tier);
    if candidates.len() > 0 {
        let n = candidates.len() - 1;
        let rest = candidates.drop_last();
        assert(candidates.take(n + 1) =~= candidates);
        lemma_block_extends(aliases, query, candidates, n, tier);
        lemma_block_texts_distinct(aliases, query, rest, tier);
        lemma_block_rows(aliases, query, rest, tier);
        let shorter = tier_block(aliases, query, rest, tier);
        assert forall|i: int, j: int| 0 <= i < j < block.len() implies (#[trigger] block[i]).text
            != (#[trigger] block[j]).text by {
            if j < shorter.len() {
                assert(block[i] == shorter[i]);
                assert(block[j] == shorter[j]);
            } else {
                assert(block[i] == shorter[i]);
                assert(has_name(rest, shorter[i].text));
                assert(block[j].text == candidates[n].name);
            }
        }
    } else {
        reveal(Seq::filter);
    }
}

/// Within one block the rows keep the order of registration: of two rows,
/// the name of the later one is first registered after the name of the
/// earlier one.
pub proof fn lemma_block_in_registration_order(
    aliases: Map<Seq<char>, Seq<char>>,
    query: Seq<char>,
    candidates: Seq<CandidateView>,
    tier: MatchTier,
)
    ensures
        forall|i: int, j: int|
            0 <= i < j < tier_block(aliases, query, candidates, tier).len() ==> registered_before(
                candidates,
                (#[trigger] tier_block(aliases, query, candidates, tier)[i]).text,
                (#[trigger] tier_block(aliases, query, candidates, tier)[j]).text,
            ),
    decreases candidates.len(),
{
    let block = tier_block(aliases, query, candidates, tier);
    if candidates.len() > 0 {
        let n = candidates.len() - 1;
        let rest = candidates.drop_last();
        assert(candidates.take(n + 1) =~= candidates);
        lemma_block_extends(aliases, query, candidates, n, tier);
        lemma_block_in_registration_order(aliases, query, rest, tier);
        lemma_block_rows(aliases, query, rest, tier);
        let shorter = tier_block(aliases, query, rest, tier);
        assert forall|i: int, j: int| 0 <= i < j < block.len() implies registered_before(
            candidates,
            (#[trigger] block[i]).text,
            (#[trigger] block[j]).text,
        ) by {
            assert(block[i] == shorter[i]);
            if j < shorter.len() {
                assert(block[j] == shorter[j]);
                assert(registered_before(rest, shorter[i].text, shorter[j].text));
                let p = choose|p: int|
                    0 <= p < rest.len() && (#[trigger] rest[p]).name == shorter[i].text
                        && !has_name(rest.take(p + 1), shorter[j].text);
                assert(candidates[p].name == block[i].text);
                assert(candidates.take(p + 1) =~= rest.take(p + 1));
            } else {
                assert(block[j].text == candidates[n].name);
                assert(has_name(rest, shorter[i].text));
                let p = choose|p: int|
                    0 <= p < rest.len() && (#[trigger] rest[p]).name == shorter[i].text;
                assert(candidates[p].name == block[i].text);
                let upto = candidates.take(p + 1);
                if has_name(upto, block[j].text) {
                    let q = choose|q: int|
                        0 <= q < upto.len() && (#[trigger] upto[q]).name == block[j].text;
                    assert(rest[q].name == block[j].text);
                }
            }
        }
    } else {
        reveal(Seq::filter);
    }
}

/// Whether two tiers are those of two rows in their order: both rows have a
/// tier, and that of the first is of no lower priority than that of the
/// second.
pub open spec fn in_tier_order(first: Option<MatchTier>, second: Option<MatchTier>) -> bool {
    &&& first is Some
    &&& second is Some
    &&& first->0.rank() <= second->0.rank()
}

/// The tier under which a search lists the row at position `k`.
pub open spec fn tier_at(
    aliases: Map<Seq<char>, Seq<char>>,
    query: Seq<char>,
    candidates: Seq<CandidateView>,
    k: int,
) -> Option<MatchTier> {
    tier_of(aliases, query, ranked(aliases, query, candidates)[k].text)
}

/// Every row of a search shows the name of a candidate that the query
/// matches, and carries an action.
pub proof fn lemma_ranked_rows_match(
    aliases: Map<Seq<char>, Seq<char>>,
    query: Seq<char>,
    candidates: Seq<CandidateView>,
)
    ensures
        forall|k: int|
            0 <= k < ranked(aliases, query, candidates).len() ==> shows_match(
                aliases,
                query,
                candidates,
                #[trigger] ranked(aliases, query, candidates)[k],
            ),
{
    lemma_block_rows(aliases, query, candidates, MatchTier::Alias);
    lemma_block_rows(aliases, query, candidates, MatchTier::Exact);
    lemma_block_rows(aliases, query, candidates, MatchTier::PrefixMatch);
    lemma_block_rows(aliases, query, candidates, MatchTier::FuzzyMatch);
}

/// Tier order: a row never comes before a row of a higher tier. Every alias
/// precedes every exact match, which precedes every prefix match, which
/// precedes every fuzzy match.
pub proof fn lemma_ranked_in_tier_order(
    aliases: Map<Seq<char>, Seq<char>>,
    query: Seq<char>,
    candidates: Seq<CandidateView>,
)
    ensures
        forall|i: int, j: int|
            0 <= i < j < ranked(aliases, query, candidates).len() ==> in_tier_order(
                #[trigger] tier_at(aliases, query, candidates, i),
                #[trigger] tier_at(aliases, query, candidates, j),
            ),
{
    lemma_block_rows(aliases, query, candidates, MatchTier::Alias);
    lemma_block_rows(aliases, query, candidates, MatchTier::Exact);
    lemma_block_rows(aliases, query, candidates, MatchTier::PrefixMatch);
    lemma_block_rows(aliases, query, candidates, MatchTier::FuzzyMatch);
}

/// No two rows of a search show the same text.
pub proof fn lemma_ranked_texts_distinct(
    aliases: Map<Seq<char>, Seq<char>>,
    query: Seq<char>,
    candidates: Seq<CandidateView>,
)
    ensures
        forall|i: int, j: int|
            0 <= i < j < ranked(aliases, query, candidates).len() ==> (#[trigger] ranked(
                aliases,
                query,
                candidates,
            )[i]).text != (#[trigger] ranked(aliases, query, candidates)[j]).text,
{
    lemma_block_rows(aliases, query, candidates, MatchTier::Alias);
    lemma_block_rows(aliases, query, candidates, MatchTier::Exact);
    lemma_block_rows(aliases, query, candidates, MatchTier::PrefixMatch);
    lemma_block_rows(aliases, query, candidates, MatchTier::FuzzyMatch);
    lemma_block_texts_distinct(aliases, query, candidates, MatchTier::Alias);
    lemma_block_texts_distinct(aliases, query, candidates, MatchTier::Exact);
    lemma_block_texts_distinct(aliases, query, candidates, MatchTier::PrefixMatch);
    lemma_block_texts_distinct(aliases, query, candidates, MatchTier::FuzzyMatch);
}

/// A candidate that the query matches is listed: some row shows its name.
/// With [`lemma_ranked_texts_distinct`], exactly one row does, whatever the
/// number of tiers whose condition the candidate meets.
pub proof fn lemma_match_is_listed(
    aliases: Map<Seq<char>, Seq<char>>,
    query: Seq<char>,
    candidates: Seq<CandidateView>,
    i: int,
)
    requires
        0 <= i < candidates.len(),
        tier_of(aliases, query, candidates[i].name) is Some,
    ensures
        has_text(ranked(aliases, query, candidates), candidates[i].name),
{
    let name = candidates[i].name;
    let tier = tier_of(aliases, query, name)->0;
    let first = tier_block(aliases, query, candidates, MatchTier::Alias);
    let second = tier_block(aliases, query, candidates, MatchTier::Exact);
    let third = tier_block(aliases, query, candidates, MatchTier::PrefixMatch);
    let fourth = tier_block(aliases, query, candidates, MatchTier::FuzzyMatch);
    let rows = ranked(aliases, query, candidates);
    lemma_block_lists_name(aliases, query, candidates, tier, name);
    let block = tier_block(aliases, query, candidates, tier);
    let k = choose|k: int| 0 <= k < block.len() && (#[trigger] block[k]).text == name;
    match tier {
        MatchTier::Alias => {
            assert(rows[k] == first[k]);
        },
        MatchTier::Exact => {
            assert(rows[first.len() + k] == second[k]);
        },
        MatchTier::PrefixMatch => {
            assert(rows[first.len() + second.len() + k] == third[k]);
        },
        MatchTier::FuzzyMatch => {
            assert(rows[first.len() + second.len() + third.len() + k] == fourth[k]);
        },
    }
}

/// Determinism: the result list of a query is fixed by the candidates, the
/// aliases and the query, but for the digits of a calculation's value. Two
/// result lists of a query that is no calculation are equal. Two result
/// lists of a calculation are both the row of a number or both the row of
/// the error, and equal in the latter case.
pub proof fn lemma_search_rows_are_determined(
    aliases: Map<Seq<char>, Seq<char>>,
    candidates: Seq<CandidateView>,
    query: Seq<char>,
    one: Option<Seq<char>>,
    other: Option<Seq<char>>,
)
    requires
        outcome_fits(query, one),
        outcome_fits(query, other),
    ensures
        !is_calculation(query) || one is None ==> search_rows(aliases, candidates, query, one)
            == search_rows(aliases, candidates, query, other),
        query.len() > 0 && is_calculation(query) ==> (one is Some) == (other is Some),
        search_rows(aliases, candidates, query, one).len() == search_rows(
            aliases,
            candidates,
            query,
            other,
        ).len(),
{
}

/// No two rows of a result list show the same text, whatever the query.
pub proof fn lemma_search_rows_texts_distinct(
    aliases: Map<Seq<char>, Seq<char>>,
    candidates: Seq<CandidateView>,
    query: Seq<char>,
    value: Option<Seq<char>>,
)
    ensures
        forall|i: int, j: int|
            0 <= i < j < search_rows(aliases, candidates, query, value).len() ==> (
            #[trigger] search_rows(aliases, candidates, query, value)[i]).text != (
            #[trigger] search_rows(aliases, candidates, query, value)[j]).text,
{
    lemma_ranked_texts_distinct(aliases, query, candidates);
}

/// The ranking engine. It owns the candidates, in registration order, and
/// the alias table.
pub struct Search {
    shortcuts: Vec<Candidate>,
    aliases: AliasTable,
}

/// Builds the row that lists a candidate.
fn result_for(candidate: &Candidate) -> (row: SearchResult)
    ensures
        row@ == result_of(candidate@),
{
    let action = match &candidate.origin {
        Origin::Path { path } => ResultAction::Open { path: path.clone() },
        Origin::Callback { name } => ResultAction::Lua { name: name.clone() },
    };
    SearchResult { mode: SearchMode::Search, text: candidate.name.clone(), action: Some(action) }
}

/// Whether a row of `results` shows `text`.
fn listed(results: &Vec<SearchResult>, text: &String) -> (found: bool)
    ensures
        found == has_text(rows_of(results@), text@),
{
    let mut k: usize = 0;
    while k < results.len()
        invariant
            k <= results@.len(),
            forall|j: int| 0 <= j < k ==> (#[trigger] rows_of(results@)[j]).text != text@,
        decreases results@.len() - k,
    {
        if results[k].text == *text {
            assert(rows_of(results@)[k as int].text == text@);
            return true;
        }
        k = k + 1;
    }
    false
}

/// Appends the row for `candidate` to the block of its tier, unless the
/// block lists its name already.
fn list_once(block: &mut Vec<SearchResult>, candidate: &Candidate)
    ensures
        has_text(rows_of(old(block)@), candidate.name@) ==> rows_of(final(block)@) == rows_of(
            old(block)@,
        ),
        !has_text(rows_of(old(block)@), candidate.name@) ==> rows_of(final(block)@) == rows_of(
            old(block)@,
        ).push(result_of(candidate@)),
{
    if !listed(block, &candidate.name) {
        let row = result_for(candidate);
        block.push(row);
        assert(rows_of(block@) =~= rows_of(old(block)@).push(result_of(candidate@)));
    }
}

impl Search {
    /// The candidates, in registration order.
    pub closed spec fn candidates(&self) -> Seq<CandidateView> {
        candidates_of(self.shortcuts@)
    }

    /// The alias table, as a map from query to preferred name.
    pub closed spec fn aliases(&self) -> Map<Seq<char>, Seq<char>> {
        self.aliases@
    }

    /// An engine over the given candidates and aliases.
    pub fn new(shortcuts: Vec<Candidate>, aliases: AliasTable) -> (engine: Search)
        ensures
            engine.candidates() == candidates_of(shortcuts@),
            engine.aliases() == aliases@,
    {
        Search { shortcuts, aliases }
    }

    /// Registers a shortcut that a script defined: a candidate named `name`
    /// whose selection runs the callback of that name. It comes after the
    /// candidates registered so far.
    pub fn register_callback_shortcut(&mut self, name: String)
        ensures
            final(self).candidates() == old(self).candidates().push(
                CandidateView { name: name@, origin: OriginView::Callback { name: name@ } },
            ),
            final(self).aliases() == old(self).aliases(),
    {
        let callback = name.clone();
        self.shortcuts.push(Candidate { name, origin: Origin::Callback { name: callback } });
        assert(candidates_of(self.shortcuts@) =~= candidates_of(old(self).shortcuts@).push(
            CandidateView { name: name@, origin: OriginView::Callback { name: name@ } },
        ));
    }

    /// Number of candidates.
    pub fn len(&self) -> (count: usize)
        ensures
            count == self.candidates().len(),
    {
        self.shortcuts.len()
    }

    /// Whether `rows` is a result list of this engine for `query`: the list
    /// that [`search_rows`] gives for an outcome of the evaluation that fits
    /// the query.
    pub open spec fn lists(&self, query: Seq<char>, rows: Seq<ResultView>) -> bool {
        exists|value: Option<Seq<char>>|
            outcome_fits(query, value) && rows == #[trigger] search_rows(
                self.aliases(),
                self.candidates(),
                query,
                value,
            )
    }

    /// The result list for a query. Every text is accepted.
    ///
    /// An empty query has no results. A calculation has one row: it shows
    /// the value of the expression where the expression has one, and the
    /// error where it has none. Any other query is a search, and its rows
    /// are [`ranked`].
    pub fn search(&self, input: &str) -> (results: Vec<SearchResult>)
        ensures
            self.lists(input@, rows_of(results@)),
            input@.len() == 0 ==> results@.len() == 0,
            input@.len() > 0 && is_calculation(input@) ==> exists|value: Option<Seq<char>>|
                rows_of(results@) == seq![#[trigger] calculator_row(value)] && (value is Some)
                    == has_value(expression_of(input@)),
            input@.len() > 0 && !is_calculation(input@) ==> rows_of(results@) == ranked(
                self.aliases(),
                input@,
                self.candidates(),
            ),
    {
        if input.is_empty() {
            let results: Vec<SearchResult> = Vec::new();
            assert(rows_of(results@) =~= search_rows(
                self.aliases(),
                self.candidates(),
                input@,
                None,
            ));
            return results;
        }
        match calculator_expression(input) {
            Some(expr) => {
                let results = self.mode_calculator(expr.as_str());
                let ghost value = choose|value: Option<Seq<char>>|
                    rows_of(results@) == seq![#[trigger] calculator_row(value)] && (value is Some)
                        == has_value(expr@);
                assert(rows_of(results@) == search_rows(
                    self.aliases(),
                    self.candidates(),
                    input@,
                    value,
                ));
                results
            },
            None => {
                let results = self.mode_search(input);
                assert(rows_of(results@) == search_rows(
                    self.aliases(),
                    self.candidates(),
                    input@,
                    None,
                ));
                results
            },
        }
    }

    /// Calculator mode: one row with the value of the expression `input`, or
    /// with `ERROR` where it has none. The expression is evaluated as it is
    /// given.
    fn mode_calculator(&self, input: &str) -> (results: Vec<SearchResult>)
        ensures
            exists|value: Option<Seq<char>>|
                rows_of(results@) == seq![#[trigger] calculator_row(value)] && (value is Some)
                    == has_value(input@),
    {
        let value = evaluate_expression(input);
        let ghost outcome = value_of(value);
        let results = vec![calculator_result(value)];
        assert(rows_of(results@) == seq![calculator_row(outcome)]);
        results
    }

    /// Search mode: classifies every candidate and lists the matches tier by
    /// tier.
    fn mode_search(&self, input: &str) -> (results: Vec<SearchResult>)
        ensures
            rows_of(results@) == ranked(self.aliases(), input@, self.candidates()),
    {
        let alias = self.aliases.get(trim(input));
        let target: Option<&str> = match alias {
            Some(name) => Some(name.as_str()),
            None => None,
        };
        let ghost aliases = self.aliases();
        let ghost all = self.candidates();
        assert(text_of(target) == alias_target(aliases, input@));

        let mut aliased: Vec<SearchResult> = Vec::new();
        let mut exact: Vec<SearchResult> = Vec::new();
        let mut prefixed: Vec<SearchResult> = Vec::new();
        let mut fuzzy: Vec<SearchResult> = Vec::new();
        proof {
            reveal(Seq::filter);
        }

        let mut i: usize = 0;
        while i < self.shortcuts.len()
            invariant
                i <= self.shortcuts@.len(),
                aliases == self.aliases(),
                all == self.candidates(),
                all.len() == self.shortcuts@.len(),
                text_of(target) == alias_target(aliases, input@),
                rows_of(aliased@) == tier_block(aliases, input@, all.take(i as int), MatchTier::Alias),
                rows_of(exact@) == tier_block(aliases, input@, all.take(i as int), MatchTier::Exact),
                rows_of(prefixed@) == tier_block(
                    aliases,
                    input@,
                    all.take(i as int),
                    MatchTier::PrefixMatch,
                ),
                rows_of(fuzzy@) == tier_block(
                    aliases,
                    input@,
                    all.take(i as int),
                    MatchTier::FuzzyMatch,
                ),
            decreases self.shortcuts@.len() - i,
        {
            let candidate = &self.shortcuts[i];
            let name = candidate.name.as_str();
            let tier = match classify(name, input, target, false) {
                Some(tier) => Some(tier),
                None => if fuzzy_match(name, input).is_some() {
                    Some(MatchTier::FuzzyMatch)
                } else {
                    None
                },
            };
            assert(tier == tier_of(aliases, input@, name@));
            proof {
                lemma_block_extends(aliases, input@, all, i as int, MatchTier::Alias);
                lemma_block_extends(aliases, input@, all, i as int, MatchTier::Exact);
                lemma_block_extends(aliases, input@, all, i as int, MatchTier::PrefixMatch);
                lemma_block_extends(aliases, input@, all, i as int, MatchTier::FuzzyMatch);
                if let Some(t) = tier {
                    lemma_block_lists_name(aliases, input@, all.take(i as int), t, name@);
                }
            }
            match tier {
                Some(MatchTier::Alias) => list_once(&mut aliased, candidate),
                Some(MatchTier::Exact) => list_once(&mut exact, candidate),
                Some(MatchTier::PrefixMatch) => list_once(&mut prefixed, candidate),
                Some(MatchTier::FuzzyMatch) => list_once(&mut fuzzy, candidate),
                None => {},
            }
            i = i + 1;
        }
        assert(all.take(i as int) =~= all);

        aliased.append(&mut exact);
        aliased.append(&mut prefixed);
        aliased.append(&mut fuzzy);
        aliased
    }
}

} // verus!
