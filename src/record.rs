//! The build record that a filter expression is evaluated against.
use vstd::prelude::*;

verus! {

/// The state a build is in.
#[derive(Debug, Clone, Copy, PartialEq, Eq, Structural)]
pub enum BuildStatus {
    Success,
    Failed,
    Canceled,
    Running,
    Skipped,
    Queued,
}

/// A read-only build record, as produced by a collector.
#[derive(Debug, Clone)]
pub struct Build {
    pub branch: String,
    pub status: BuildStatus,
    pub definition_id: String,
    pub project_id: String,
    pub build_id: String,
    pub collector: String,
    pub provider: String,
}

} // verus!
