use vstd::prelude::*;
use crate::score::Score;

verus! {

/// The classification tag that the engine attaches to a reference text. The
/// scan forwards it and never branches on it.
#[derive(Clone, Copy, Debug, PartialEq, Eq, Structural)]
pub enum LicenseKind {
    Original,
    Header,
    Alternate,
}

/// A reference license that a text, or a part of it, was matched against.
#[derive(Clone, Debug)]
pub struct IdentifiedLicense {
    pub name: String,
    pub kind: LicenseKind,
}

/// A license found within a sub-range of the scanned text.
#[derive(Debug)]
pub struct ContainedResult {
    pub score: Score,
    pub license: IdentifiedLicense,
    /// First and last line of the match, inclusive and counted from zero, in
    /// the working text of the pass that located it.
    pub line_range: (usize, usize),
}

/// What a scan reports: the whole-document score, the license it identifies
/// when that score is confident enough, and the licenses located inside the
/// text, in the order they were found.
#[derive(Debug)]
pub struct ScanResult {
    pub score: Score,
    pub license: Option<IdentifiedLicense>,
    pub containing: Vec<ContainedResult>,
}

/// The engine's answer to a whole-text comparison: the best-matching
/// reference text and how well it matched. The match token that the engine
/// needs to localize that reference text stays with the engine's caller.
#[derive(Clone, Debug)]
pub struct Classification {
    pub score: Score,
    pub name: String,
    pub kind: LicenseKind,
}

/// The engine's answer to a localization: the contiguous line range of the
/// working text that best matches the reference text, and its score.
#[derive(Clone, Copy, Debug)]
pub struct Localization {
    pub score: Score,
    pub line_range: (usize, usize),
}

/// The license that a classification names.
pub open spec fn identity_of(c: Classification) -> IdentifiedLicense {
    IdentifiedLicense { name: c.name, kind: c.kind }
}

impl Classification {
    /// The license this classification names.
    pub fn identity(&self) -> (r: IdentifiedLicense)
        ensures
            r == identity_of(*self),
    {
        IdentifiedLicense { name: self.name.clone(), kind: self.kind }
    }
}

impl IdentifiedLicense {
    /// A copy of this license with the same name and kind.
    pub fn duplicate(&self) -> (r: IdentifiedLicense)
        ensures
            r == *self,
    {
        IdentifiedLicense { name: self.name.clone(), kind: self.kind }
    }
}

} // verus!
