//! The two message shapes that cross the transport.
use vstd::prelude::*;

use crate::ServerError;
use crate::context::Context;

verus! {

/// An outbound call as it travels to the serving side. The correlation id is
/// unique among all requests currently awaiting a response on one connection.
pub struct RequestEnvelope<Req> {
    /// Identifier tying this request to its eventual response.
    pub correlation_id: u64,
    /// Deadline and trace metadata propagated into the handler.
    pub context: Context,
    /// The request value itself.
    pub payload: Req,
}

/// A completed call as it travels back to the calling side. It must reference
/// a correlation id previously seen as an outstanding request on the same
/// connection; one for an unknown or already-resolved id is a protocol
/// anomaly, dropped without affecting the channel.
pub struct ResponseEnvelope<Resp> {
    /// The correlation id of the request this responds to.
    pub correlation_id: u64,
    /// The handler's answer: a response value or a handler-reported failure.
    pub result: Result<Resp, ServerError>,
}

} // verus!
