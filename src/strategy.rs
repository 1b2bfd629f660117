use vstd::prelude::*;
use crate::score::Score;

verus! {

/// Default confidence threshold, in millionths.
pub const DEFAULT_CONFIDENCE_THRESHOLD: u32 = 800_000;

/// Default shallow limit, in millionths.
pub const DEFAULT_SHALLOW_LIMIT: u32 = 990_000;

/// Default number of localization passes.
pub const DEFAULT_MAX_PASSES: u16 = 10;

/// The tunable parameters of a scan. A value is built once, tuned by chained
/// setters, and never changed by scanning.
#[derive(Clone, Copy, Debug, PartialEq, Eq, Structural)]
pub struct ScanStrategy {
    /// Scores strictly above this identify a license.
    pub confidence_threshold: Score,
    /// A whole-document score strictly above this (and above the threshold)
    /// ends the scan without searching for embedded licenses.
    pub shallow_limit: Score,
    /// Whether to search for licenses embedded in the text.
    pub optimize: bool,
    /// Upper bound on the number of localization passes.
    pub max_passes: u16,
}

impl ScanStrategy {
    /// A strategy with the default parameters: threshold 0.8, shallow limit
    /// 0.99, no search for embedded licenses, at most ten passes.
    pub fn new() -> (r: ScanStrategy)
        ensures
            r.confidence_threshold@ == DEFAULT_CONFIDENCE_THRESHOLD as int,
            r.shallow_limit@ == DEFAULT_SHALLOW_LIMIT as int,
            !r.optimize,
            r.max_passes == DEFAULT_MAX_PASSES,
    {
        let confidence_threshold = Score::new(DEFAULT_CONFIDENCE_THRESHOLD).unwrap();
        let shallow_limit = Score::new(DEFAULT_SHALLOW_LIMIT).unwrap();
        ScanStrategy { confidence_threshold, shallow_limit, optimize: false, max_passes: DEFAULT_MAX_PASSES }
    }

    /// The same strategy with another confidence threshold.
    pub fn confidence_threshold(self, confidence_threshold: Score) -> (r: ScanStrategy)
        ensures
            r == (ScanStrategy { confidence_threshold, ..self }),
    {
        ScanStrategy { confidence_threshold, ..self }
    }

    /// The same strategy with another shallow limit.
    pub fn shallow_limit(self, shallow_limit: Score) -> (r: ScanStrategy)
        ensures
            r == (ScanStrategy { shallow_limit, ..self }),
    {
        ScanStrategy { shallow_limit, ..self }
    }

    /// The same strategy, searching for embedded licenses or not.
    pub fn optimize(self, optimize: bool) -> (r: ScanStrategy)
        ensures
            r == (ScanStrategy { optimize, ..self }),
    {
        ScanStrategy { optimize, ..self }
    }

    /// The same strategy with another bound on the number of passes.
    pub fn max_passes(self, max_passes: u16) -> (r: ScanStrategy)
        ensures
            r == (ScanStrategy { max_passes, ..self }),
    {
        ScanStrategy { max_passes, ..self }
    }
}

} // verus!
