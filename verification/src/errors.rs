//! Error taxonomy: configuration errors are fatal at initialization, internal
//! consistency errors are fatal at the point of detection. Conditions such as
//! "buffer not yet full enough to train" are not errors and never appear here.

use vstd::prelude::*;

verus! {

/// A configuration invariant was violated at startup; the subsystem must not
/// start.
#[derive(Clone, Copy, Debug, PartialEq, Eq, Structural)]
pub enum ConfigError {
    /// The sensor array handed to the observation builder does not have the
    /// configured number of elements.
    SensorCountMismatch,
    /// The replay buffer was asked for with no room for even one transition.
    ZeroBufferCapacity,
    /// Training minibatches of size zero were requested.
    ZeroBatchSize,
}

/// The pipeline reached a state its own invariants rule out; continuing would
/// silently corrupt the learner, so the condition is surfaced to the caller.
#[derive(Clone, Copy, Debug, PartialEq, Eq, Structural)]
pub enum InternalError {
    /// No action index attains the maximum of the value network's output.
    NoMaxAction,
}

impl ConfigError {
    /// Human-readable description of the configuration failure.
    pub fn describe(&self) -> (s: &'static str)
    {
        match self {
            ConfigError::SensorCountMismatch => "sensor array length differs from the configured sensor count",
            ConfigError::ZeroBufferCapacity => "replay buffer capacity must be at least 1",
            ConfigError::ZeroBatchSize => "training batch size must be at least 1",
        }
    }
}

impl InternalError {
    /// Human-readable description of the internal inconsistency.
    pub fn describe(&self) -> (s: &'static str)
    {
        match self {
            InternalError::NoMaxAction => "no action attains the maximum network output",
        }
    }
}

} // verus!
