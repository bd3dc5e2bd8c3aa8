//! The error surface of the connection core.

use vstd::prelude::*;

verus! {

/// Everything that can go wrong while driving a connection.
///
/// - `ConstructionFailure`: a factory could not build its worker.
/// - `SendFailure`: an outbound message could not be handed to the driving
///   thread (its channel is closed because the thread has terminated).
/// - `DeliveryFailure`: the worker's `receive` or `tick` hook reported an
///   error while processing.
/// - `JoinFailure`: the driving thread did not terminate cleanly.
#[derive(Clone, Copy, Debug, PartialEq, Eq, Structural)]
pub enum NetError {
    ConstructionFailure,
    SendFailure,
    DeliveryFailure,
    JoinFailure,
}

/// Result type used throughout the connection core.
pub type NetResult<T> = Result<T, NetError>;

} // verus!
