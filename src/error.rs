use vstd::prelude::*;

verus! {

/// What can go wrong when building a player or driving its pipeline.
#[derive(Clone, Copy, Debug, PartialEq, Eq, Structural)]
pub enum Error {
    /// The media engine or its runtime could not be started.
    InitializationFailure,
    /// A property that negotiation should have produced is absent: the
    /// dimensions, the framerate, or the current position.
    CapabilityMissing,
    /// The negotiated framerate `numer / denom` is not a finite positive number.
    InvalidFramerate { numer: i32, denom: i32 },
    /// An element or pad could not be taken as the kind that was expected.
    TypeMismatch,
    /// The pipeline rejected a seek, a state change or a property change.
    OperationFailure,
}

} // verus!
