//! Error kinds surfaced by the tracking client. Every error is terminal for
//! the call that produced it; this layer never retries.

use vstd::prelude::*;

verus! {

/// The flat set of failures a `fetch` (or any of its parsing layers) can end
/// in. `TransportError` carries the transport's own message opaquely;
/// `DeserializationError` carries enough context to diagnose which field or
/// value was rejected.
#[derive(Debug)]
pub enum ClientError {
    InvalidTrackingNumber,
    Unauthorized,
    ParcelNotFound,
    ServerError,
    TransportError(String),
    DeserializationError(String),
}

pub type ClientResult<T> = Result<T, ClientError>;

} // verus!
