//! What can go wrong while the engine plans a configuration.

use vstd::prelude::*;

verus! {

/// Failure of a reconfiguration attempt. Neither kind is retried: the cycle
/// that meets one cannot process audio.
#[derive(Clone, Copy, Debug, PartialEq, Eq, Structural)]
pub enum EngineError {
    /// A stage ratio lies outside the range the stages were built for.
    ConfigurationError,
    /// No rate at or above the target is block aligned, so a search for one
    /// would never end. This is the case exactly when the host rate is zero.
    SearchNonTermination,
}

} // verus!
