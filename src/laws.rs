use vstd::prelude::*;
use crate::result::{identity_of, Classification, ContainedResult, IdentifiedLicense};
use crate::scan::{begin_spec, classified_spec, feed, localized_spec, run, Round, ScanModel, ScanStep};
use crate::strategy::ScanStrategy;

verus! {

/// One pass keeps the configuration, the whole-document answer and the
/// facts of `wf`, and only ever appends to the located licenses.
proof fn lemma_feed(m: ScanModel, round: Round)
    requires
        m.wf(),
    ensures
        feed(m, round).wf(),
        feed(m, round).config == m.config,
        feed(m, round).score == m.score,
        feed(m, round).license == m.license,
        m.containing.is_prefix_of(feed(m, round).containing),
        m.step is Done ==> feed(m, round) == m,
{
    let a = localized_spec(m, round.found);
    let b = classified_spec(a, round.next);
    assert(a.wf());
    assert(m.containing.is_prefix_of(a.containing));
    assert(a.containing == b.containing);
}

/// Every state that a scan reaches satisfies `wf`, keeps its configuration,
/// and still reports the whole-document answer of its first classification.
pub proof fn lemma_run(config: ScanStrategy, first: Classification, rounds: Seq<Round>)
    ensures
        run(config, first, rounds).wf(),
        run(config, first, rounds).config == config,
        run(config, first, rounds).score == first.score,
        run(config, first, rounds).license == begin_spec(config, first).license,
    decreases rounds.len(),
{
    if rounds.len() > 0 {
        lemma_run(config, first, rounds.drop_last());
        lemma_feed(run(config, first, rounds.drop_last()), rounds.last());
    }
}

/// A scan that is over stays over, whatever answers follow.
proof fn lemma_done_stays(config: ScanStrategy, first: Classification, rounds: Seq<Round>)
    requires
        begin_spec(config, first).step is Done,
    ensures
        run(config, first, rounds) == begin_spec(config, first),
    decreases rounds.len(),
{
    if rounds.len() > 0 {
        lemma_done_stays(config, first, rounds.drop_last());
        lemma_run(config, first, rounds.drop_last());
        lemma_feed(run(config, first, rounds.drop_last()), rounds.last());
    }
}

/// The reported license is present exactly when the whole-document score
/// strictly exceeds the confidence threshold, and it is then the license of
/// that first classification; the reported score is that first score.
pub proof fn law_license_iff_confident(config: ScanStrategy, first: Classification, rounds: Seq<Round>)
    ensures
        run(config, first, rounds).score == first.score,
        run(config, first, rounds).license is Some <==> first.score@ > config.confidence_threshold@,
        run(config, first, rounds).license is Some ==> run(config, first, rounds).license == Some(
            identity_of(first),
        ),
{
    lemma_run(config, first, rounds);
}

/// A whole-document score above both the confidence threshold and the
/// shallow limit ends the scan at once: no embedded license is reported,
/// whether or not the search is enabled.
pub proof fn law_shallow_exit(config: ScanStrategy, first: Classification, rounds: Seq<Round>)
    requires
        first.score@ > config.confidence_threshold@,
        first.score@ > config.shallow_limit@,
    ensures
        run(config, first, rounds).containing.len() == 0,
{
    lemma_done_stays(config, first, rounds);
}

/// Without the search for embedded licenses, none is reported.
pub proof fn law_no_search_without_optimize(config: ScanStrategy, first: Classification, rounds: Seq<Round>)
    requires
        !config.optimize,
    ensures
        run(config, first, rounds).containing.len() == 0,
{
    lemma_done_stays(config, first, rounds);
}

/// A scan reports at most as many embedded licenses as it may make passes.
pub proof fn law_containing_bounded(config: ScanStrategy, first: Classification, rounds: Seq<Round>)
    ensures
        run(config, first, rounds).containing.len() <= config.max_passes,
{
    lemma_run(config, first, rounds);
}

/// Every reported embedded license scored at least the confidence threshold:
/// a localization stops the search only when it scores below it.
pub proof fn law_containing_confident(config: ScanStrategy, first: Classification, rounds: Seq<Round>)
    ensures
        forall|i: int|
            0 <= i < run(config, first, rounds).containing.len() ==> #[trigger] run(
                config,
                first,
                rounds,
            ).containing[i].score@ >= config.confidence_threshold@,
{
    lemma_run(config, first, rounds);
}

/// A larger pass budget, with the engine answering the same, never reports
/// fewer embedded licenses: what the smaller budget reports is a prefix of
/// what the larger one reports.
pub proof fn law_more_passes_find_more(
    config: ScanStrategy,
    max_passes: u16,
    first: Classification,
    rounds: Seq<Round>,
)
    requires
        config.max_passes <= max_passes,
    ensures
        run(config, first, rounds).containing.is_prefix_of(
            run(ScanStrategy { max_passes, ..config }, first, rounds).containing,
        ),
        run(config, first, rounds).containing.len() <= run(
            ScanStrategy { max_passes, ..config },
            first,
            rounds,
        ).containing.len(),
{
    lemma_budgets_agree(config, max_passes, first, rounds);
}

/// While the scan with the smaller budget goes on, both scans are in the same
/// state; once it is over, its findings are a prefix of the other's.
proof fn lemma_budgets_agree(config: ScanStrategy, max_passes: u16, first: Classification, rounds: Seq<Round>)
    requires
        config.max_passes <= max_passes,
    ensures
        ({
            let s1 = run(config, first, rounds);
            let s2 = run(ScanStrategy { max_passes, ..config }, first, rounds);
            &&& s1.containing.is_prefix_of(s2.containing)
            &&& !(s1.step is Done) ==> s2.step == s1.step && s2.containing == s1.containing && s2.current
                == s1.current && s2.passes == s1.passes
        }),
    decreases rounds.len(),
{
    let wide = ScanStrategy { max_passes, ..config };
    lemma_run(config, first, rounds);
    lemma_run(wide, first, rounds);
    if rounds.len() > 0 {
        let prev = rounds.drop_last();
        let round = rounds.last();
        lemma_budgets_agree(config, max_passes, first, prev);
        lemma_run(config, first, prev);
        lemma_run(wide, first, prev);
        let p1 = run(config, first, prev);
        let p2 = run(wide, first, prev);
        lemma_feed(p1, round);
        lemma_feed(p2, round);
        let s2 = feed(p2, round);
        if p1.step is Done {
            assert(p1.containing.is_prefix_of(p2.containing));
            assert(p2.containing.is_prefix_of(s2.containing));
            assert(p1.containing =~= s2.containing.subrange(0, p1.containing.len() as int));
        }
    } else {
        assert(run(config, first, rounds).containing =~= Seq::empty());
    }
}

/// The license that pass `i` looks for: the one of the first classification
/// for the first pass, and after that the one of the previous pass's
/// re-classification.
pub open spec fn sought(first: Classification, rounds: Seq<Round>, i: int) -> IdentifiedLicense {
    if i == 0 {
        identity_of(first)
    } else {
        identity_of(rounds[i - 1].next)
    }
}

/// The entry that pass `i` records when its localization is confident.
pub open spec fn entry_of(first: Classification, rounds: Seq<Round>, i: int) -> ContainedResult {
    ContainedResult {
        score: rounds[i].found.score,
        license: sought(first, rounds, i),
        line_range: rounds[i].found.line_range,
    }
}

proof fn lemma_entries(config: ScanStrategy, first: Classification, rounds: Seq<Round>)
    ensures
        ({
            let s = run(config, first, rounds);
            &&& !(s.step is Reclassify)
            &&& !(s.step is Done) ==> s.passes == rounds.len() && s.current == sought(first, rounds, rounds.len() as int)
            &&& s.containing.len() <= rounds.len()
            &&& forall|i: int| 0 <= i < s.containing.len() ==> s.containing[i] == entry_of(first, rounds, i)
        }),
    decreases rounds.len(),
{
    lemma_run(config, first, rounds);
    if rounds.len() > 0 {
        let prev = rounds.drop_last();
        let k = prev.len() as int;
        lemma_entries(config, first, prev);
        lemma_run(config, first, prev);
        let p = run(config, first, prev);
        let s = run(config, first, rounds);
        assert forall|i: int| 0 <= i < p.containing.len() implies p.containing[i] == entry_of(first, rounds, i) by {
            assert(prev[i] == rounds[i]);
            if i > 0 {
                assert(prev[i - 1] == rounds[i - 1]);
            }
        }
        if k > 0 {
            assert(prev[k - 1] == rounds[k - 1]);
        }
        if p.step is Localize && s.containing.len() > p.containing.len() {
            assert(s.containing[k] == entry_of(first, rounds, k));
        }
        assert forall|i: int| 0 <= i < s.containing.len() implies s.containing[i] == entry_of(first, rounds, i) by {
            if i < p.containing.len() {
                assert(s.containing[i] == p.containing[i]);
            }
        }
    }
}

/// Entry `i` of the located licenses is what pass `i` found: the score and
/// line range of that pass's localization, under the license that pass
/// looked for (the identity from before its own re-classification). So two
/// entries share a line range only if the engine located the same range in
/// two passes.
pub proof fn law_entries_follow_answers(config: ScanStrategy, first: Classification, rounds: Seq<Round>)
    ensures
        run(config, first, rounds).containing.len() <= rounds.len(),
        forall|i: int|
            0 <= i < run(config, first, rounds).containing.len() ==> #[trigger] run(
                config,
                first,
                rounds,
            ).containing[i] == entry_of(first, rounds, i),
{
    lemma_entries(config, first, rounds);
}

} // verus!
