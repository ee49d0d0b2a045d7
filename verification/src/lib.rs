//! Core of an RPC system: a one-shot service abstraction, a server-side
//! channel that turns inbound requests into response-delivery units, and a
//! client-side dispatch loop that multiplexes concurrent calls over one
//! transport by correlation identifier.
use vstd::prelude::*;

pub mod client;
pub mod context;
pub mod envelope;
pub mod inflight;
pub mod serve;
pub mod server;

verus! {

/// The capability a request type must offer: report which RPC method it
/// belongs to, for routing and diagnostics.
pub trait RequestName {
    /// The stable name of the method this request invokes.
    fn name(&self) -> &'static str;
}

/// A handler-reported failure, carried inside a successfully delivered
/// response envelope; distinct from transport-level failures.
#[derive(Clone, Debug, PartialEq, Eq)]
pub struct ServerError {
    /// Human-readable description of what the handler rejected or could not do.
    pub detail: String,
}

impl ServerError {
    /// Builds a server-side error with the given description.
    pub fn new(detail: String) -> (e: ServerError)
        ensures
            e.detail == detail,
    {
        ServerError { detail }
    }
}

} // verus!
