use vstd::prelude::*;
use crate::result::{identity_of, Classification, ContainedResult, IdentifiedLicense, Localization, ScanResult};
use crate::score::{Score, SCORE_SCALE};
use crate::strategy::ScanStrategy;

verus! {

/// What the caller of a scan does next with the similarity engine.
#[derive(Clone, Copy, Debug, PartialEq, Eq, Structural)]
pub enum ScanStep {
    /// Localize, within the working text, the reference text of the latest
    /// classification, and hand the answer to `Scan::localized`.
    Localize,
    /// Mask out the range just located, classify the resulting working text,
    /// and hand the answer to `Scan::classified`.
    Reclassify,
    /// Nothing: the scan is over and `Scan::finish` gives its result.
    Done,
}

/// The abstract state of a scan.
pub struct ScanModel {
    pub config: ScanStrategy,
    /// Score of the first, whole-document classification.
    pub score: Score,
    /// License of the whole document, if its score was confident enough.
    pub license: Option<IdentifiedLicense>,
    /// Licenses located so far, in order of discovery.
    pub containing: Seq<ContainedResult>,
    /// License named by the latest classification: the one the next
    /// localization looks for.
    pub current: IdentifiedLicense,
    /// Number of passes that ended in a re-classification.
    pub passes: nat,
    pub step: ScanStep,
}

/// The engine's answers for one pass: the localization, and the
/// classification of the working text after masking.
pub struct Round {
    pub found: Localization,
    pub next: Classification,
}

/// State after the whole-document classification `first`.
pub open spec fn begin_spec(config: ScanStrategy, first: Classification) -> ScanModel {
    let confident = first.score@ > config.confidence_threshold@;
    let shallow = confident && first.score@ > config.shallow_limit@;
    ScanModel {
        config,
        score: first.score,
        license: if confident { Some(identity_of(first)) } else { None },
        containing: Seq::empty(),
        current: identity_of(first),
        passes: 0,
        step: if shallow || !config.optimize || config.max_passes == 0 {
            ScanStep::Done
        } else {
            ScanStep::Localize
        },
    }
}

/// State after a localization answer. A score below the threshold ends the
/// scan; otherwise the match is recorded under the license that was looked
/// for. Outside the localize step the answer is ignored.
pub open spec fn localized_spec(m: ScanModel, found: Localization) -> ScanModel {
    if !(m.step is Localize) {
        m
    } else if found.score@ < m.config.confidence_threshold@ {
        ScanModel { step: ScanStep::Done, ..m }
    } else {
        let entry = ContainedResult { score: found.score, license: m.current, line_range: found.line_range };
        ScanModel { containing: m.containing.push(entry), step: ScanStep::Reclassify, ..m }
    }
}

/// State after the classification of the masked working text: one more pass
/// is complete, and the scan ends once the pass budget is spent. Outside the
/// re-classify step the answer is ignored.
pub open spec fn classified_spec(m: ScanModel, next: Classification) -> ScanModel {
    if !(m.step is Reclassify) {
        m
    } else {
        ScanModel {
            current: identity_of(next),
            passes: m.passes + 1,
            step: if m.passes + 1 >= m.config.max_passes {
                ScanStep::Done
            } else {
                ScanStep::Localize
            },
            ..m
        }
    }
}

/// State after one pass's answers.
pub open spec fn feed(m: ScanModel, round: Round) -> ScanModel {
    classified_spec(localized_spec(m, round.found), round.next)
}

/// State of a scan with `config` whose first classification was `first` and
/// whose passes were answered by `rounds`, in order.
pub open spec fn run(config: ScanStrategy, first: Classification, rounds: Seq<Round>) -> ScanModel
    decreases rounds.len(),
{
    if rounds.len() == 0 {
        begin_spec(config, first)
    } else {
        feed(run(config, first, rounds.drop_last()), rounds.last())
    }
}

impl ScanModel {
    /// The facts that hold of every state a scan reaches.
    pub open spec fn wf(self) -> bool {
        let threshold = self.config.confidence_threshold@;
        &&& self.passes <= self.config.max_passes
        &&& !(self.step is Done) ==> self.passes < self.config.max_passes && self.config.optimize
        &&& self.containing.len() == self.passes + if self.step is Reclassify { 1nat } else { 0nat }
        &&& forall|i: int| 0 <= i < self.containing.len() ==> self.containing[i].score@ >= threshold
        &&& (self.license is Some <==> self.score@ > threshold)
    }
}

/// A scan in progress. It is started by `ScanStrategy::begin`, told the
/// engine's answers, and tells in turn which engine call comes next.
pub struct Scan {
    config: ScanStrategy,
    score: Score,
    license: Option<IdentifiedLicense>,
    containing: Vec<ContainedResult>,
    current: IdentifiedLicense,
    passes: u16,
    step: ScanStep,
}

impl View for Scan {
    type V = ScanModel;

    closed spec fn view(&self) -> ScanModel {
        ScanModel {
            config: self.config,
            score: self.score,
            license: self.license,
            containing: self.containing@,
            current: self.current,
            passes: self.passes as nat,
            step: self.step,
        }
    }
}

impl Scan {
    #[verifier::type_invariant]
    spec fn inv(self) -> bool {
        self@.wf()
    }

    /// The engine call the scan waits for.
    pub fn next_step(&self) -> (r: ScanStep)
        ensures
            r == self@.step,
    {
        self.step
    }

    /// Records the answer to a localization.
    pub fn localized(self, found: Localization) -> (r: Scan)
        ensures
            r@ == localized_spec(self@, found),
    {
        proof {
            use_type_invariant(&self);
        }
        let Scan { config, score, license, mut containing, current, passes, step } = self;
        if !matches!(step, ScanStep::Localize) {
            Scan { config, score, license, containing, current, passes, step }
        } else if found.score.falls_short_of(config.confidence_threshold) {
            Scan { config, score, license, containing, current, passes, step: ScanStep::Done }
        } else {
            let entry = ContainedResult { score: found.score, license: current.duplicate(), line_range: found.line_range };
            containing.push(entry);
            Scan { config, score, license, containing, current, passes, step: ScanStep::Reclassify }
        }
    }

    /// Records the classification of the masked working text.
    pub fn classified(self, next: Classification) -> (r: Scan)
        ensures
            r@ == classified_spec(self@, next),
    {
        proof {
            use_type_invariant(&self);
        }
        let Scan { config, score, license, containing, current, passes, step } = self;
        if !matches!(step, ScanStep::Reclassify) {
            Scan { config, score, license, containing, current, passes, step }
        } else {
            let passes = passes + 1;
            let step = if passes >= config.max_passes {
                ScanStep::Done
            } else {
                ScanStep::Localize
            };
            Scan { config, score, license, containing, current: next.identity(), passes, step }
        }
    }

    /// The result of the scan: the whole-document score and license, and the
    /// licenses located so far.
    pub fn finish(self) -> (r: ScanResult)
        ensures
            r.score == self@.score,
            r.license == self@.license,
            r.containing@ == self@.containing,
            0 <= r.score@ <= SCORE_SCALE as int,
    {
        // A score's units never exceed the scale; reading them brings that fact here.
        let units: u32 = self.score.units();
        proof {
            assert(units <= SCORE_SCALE);
        }
        ScanResult { score: self.score, license: self.license, containing: self.containing }
    }
}

impl ScanStrategy {
    /// Starts a scan from the whole-document classification `first`.
    pub fn begin(&self, first: Classification) -> (r: Scan)
        ensures
            r@ == begin_spec(*self, first),
    {
        let confident = first.score.exceeds(self.confidence_threshold);
        let shallow = confident && first.score.exceeds(self.shallow_limit);
        let license = if confident {
            Some(first.identity())
        } else {
            None
        };
        let step = if shallow || !self.optimize || self.max_passes == 0 {
            ScanStep::Done
        } else {
            ScanStep::Localize
        };
        Scan {
            config: *self,
            score: first.score,
            license,
            containing: Vec::new(),
            current: first.identity(),
            passes: 0,
            step,
        }
    }
}

} // verus!
