use vstd::prelude::*;

verus! {

/// Stable, enumerable error kinds surfaced by the lifecycle operations.
///
/// Every failure reflects a fact about current state (or about the
/// offending input), never a transient condition, so callers can branch
/// on the kind alone.
#[derive(Clone, Copy, Debug, PartialEq, Eq, Structural)]
pub enum CustomError {
    /// Counter setup was invoked while the sequence counter already exists.
    AlreadyInitialized,
    /// The sequence counter is missing or cannot hand out another identifier.
    CounterUnavailable,
    /// The batch has already been processed.
    AlreadyProcessed,
    /// The batch has already been distributed.
    AlreadyDistributed,
    /// The batch has not been processed yet.
    NotProcessedYet,
    /// The calling identity is not the authority bound to the batch.
    Unauthorized,
    /// No batch carries the requested identifier.
    NotFound,
    /// A text input exceeds the schema bound of its field.
    FieldTooLong,
}

} // verus!
