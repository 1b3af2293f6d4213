//! Client-side protocol layer for a trading venue: authenticated request
//! signing for REST calls, and the decode / reconnect logic of a resilient
//! market-data stream listener.

use vstd::prelude::*;

pub mod crypto;
pub mod jsonio;
pub mod listener;
pub mod request;
pub mod signing;
pub mod stream;

verus! {

/// Errors surfaced to callers of the REST client.
#[derive(Clone, Copy, Debug, PartialEq, Eq, Structural)]
pub enum ClientError {
    /// The secret could not be used to key the signing function.
    InvalidCredential,
    /// Connection, transport, or timeout failure during a REST call.
    NetworkError,
    /// The response body could not be parsed as the expected format.
    DecodeError,
}

} // verus!
