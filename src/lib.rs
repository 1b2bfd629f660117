//! Orchestration of a license scan: a whole-document classification, an
//! optional shallow exit, and a bounded localize / mask / re-classify search
//! for licenses embedded in a larger text.
//!
//! The similarity engine stays outside the library. A caller starts a scan
//! with `ScanStrategy::begin` and the engine's whole-text classification,
//! then asks `Scan::next_step` which engine call comes next, hands the answer
//! back through `Scan::localized` or `Scan::classified`, and takes the result
//! from `Scan::finish` once the scan is done.
pub mod laws;
pub mod result;
pub mod scan;
pub mod score;
pub mod strategy;

pub use result::{Classification, ContainedResult, IdentifiedLicense, LicenseKind, Localization, ScanResult};
pub use scan::{Scan, ScanStep};
pub use score::{Score, SCORE_SCALE};
pub use strategy::ScanStrategy;
