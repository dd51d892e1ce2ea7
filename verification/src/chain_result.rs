use vstd::prelude::*;
use crate::event_failure::EventFailure;

verus! {

/// Coarse classification of a finished run.
#[derive(Debug, Clone, Copy, PartialEq, Eq, Structural)]
pub enum ChainStatus {
    /// No failure occurred.
    Completed,
    /// At least one failure occurred, but the policy allowed the run to
    /// continue to the end.
    CompletedWithWarnings,
    /// A failure aborted the run under the strict policy.
    Failed,
}

impl ChainStatus {
    /// Stable display name of this status.
    pub fn display_name(&self) -> (r: &'static str)
        ensures
            *self is Completed ==> r@ == "COMPLETED"@,
            *self is CompletedWithWarnings ==> r@ == "COMPLETED_WITH_WARNINGS"@,
            *self is Failed ==> r@ == "FAILED"@,
    {
        match self {
            ChainStatus::Completed => "COMPLETED",
            ChainStatus::CompletedWithWarnings => "COMPLETED_WITH_WARNINGS",
            ChainStatus::Failed => "FAILED",
        }
    }
}

/// Aggregate outcome of one run: an overall success flag, the failures in the
/// order they were encountered, and a coarse status.
#[derive(Debug)]
pub struct ChainResult {
    pub success: bool,
    pub failures: Vec<EventFailure>,
    pub status: ChainStatus,
}

impl ChainResult {
    /// Outcome of a run in which no failure occurred.
    pub fn success() -> (r: ChainResult)
        ensures
            r.success,
            r.failures@.len() == 0,
            r.status is Completed,
    {
        ChainResult { success: true, failures: Vec::new(), status: ChainStatus::Completed }
    }

    /// Outcome of a run that recorded failures but was allowed to continue.
    pub fn partial_success(failures: Vec<EventFailure>) -> (r: ChainResult)
        ensures
            r.success,
            r.failures@ == failures@,
            r.status is CompletedWithWarnings,
    {
        ChainResult { success: true, failures, status: ChainStatus::CompletedWithWarnings }
    }

    /// Outcome of a run aborted by a failure.
    pub fn failure(failures: Vec<EventFailure>) -> (r: ChainResult)
        ensures
            !r.success,
            r.failures@ == failures@,
            r.status is Failed,
    {
        ChainResult { success: false, failures, status: ChainStatus::Failed }
    }
}

} // verus!
