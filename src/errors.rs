use vstd::prelude::*;

verus! {

/// The ways in which building a backoff can fail.
#[derive(Debug, PartialEq, Eq)]
pub enum AdaptiveError {
    /// The configuration is incomplete, contradictory or out of range.
    BuilderFailure { msg: String },
    /// No base delay could be settled for an adaptive backoff.
    MissingBaseDelay,
}

} // verus!
