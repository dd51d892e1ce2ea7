use vstd::prelude::*;

verus! {

/// Run-level setting that decides whether the pipeline aborts on the first
/// failure or records it and keeps going.
#[derive(Debug, Clone, Copy, PartialEq, Eq, Structural)]
pub enum FaultToleranceMode {
    /// Abort the pipeline on the first failure.
    Strict,
    /// Record every failure and continue with the remaining events.
    Lenient,
    /// Record every failure and continue; behaviourally identical to
    /// `Lenient`, kept as a separate mode for future divergence.
    BestEffort,
}

} // verus!
