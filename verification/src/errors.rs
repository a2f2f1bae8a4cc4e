//! The error taxonomy of the benchmark engine. Every error is fatal: a run
//! whose measurement loop saw an anomaly cannot produce trustworthy
//! statistics, so there is no recoverable-error path anywhere in the core.

use vstd::prelude::*;

verus! {

/// A fatal benchmark failure.
#[derive(Clone, Copy, PartialEq, Eq, Structural, Debug)]
pub enum BenchError {
    /// A data link could not be allocated or an execution unit could not be
    /// scheduled.
    ResourceExhaustion,
    /// An observed payload or sample count does not match what the chain
    /// must produce: the chain dropped, duplicated or corrupted a payload.
    ProtocolViolation { expected: u64, observed: u64 },
    /// The optional post-run command exited with a non-zero status.
    ExternalCommandFailure { status: i32 },
}

} // verus!
