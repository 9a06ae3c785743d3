//! What the transport reports to a role, and what travels between roles.

use crate::message::{Req, Resp};
use crate::peer::PeerId;
use vstd::prelude::*;

verus! {

/// A request on its way: its payload, the identifier that its response
/// will carry, and the peer that it goes to.
#[derive(Debug, PartialEq, Eq)]
pub struct RequestEnvelope {
    pub id: u64,
    pub peer: PeerId,
    pub request: Req,
}

impl Clone for RequestEnvelope {
    fn clone(&self) -> (copy: Self)
        ensures
            copy.id == self.id,
            copy.peer@ == self.peer@,
            copy.request@ == self.request@,
    {
        RequestEnvelope { id: self.id, peer: self.peer.clone(), request: self.request.clone() }
    }
}

/// A response on its way: its payload, the identifier of the request that
/// it answers, and the peer that answers.
#[derive(Debug, PartialEq, Eq)]
pub struct ResponseEnvelope {
    pub id: u64,
    pub peer: PeerId,
    pub response: Resp,
}

impl Clone for ResponseEnvelope {
    fn clone(&self) -> (copy: Self)
        ensures
            copy.id == self.id,
            copy.peer@ == self.peer@,
            copy.response@ == self.response@,
    {
        ResponseEnvelope { id: self.id, peer: self.peer.clone(), response: self.response.clone() }
    }
}

/// One event from the transport. `C` is the channel handle that comes with
/// an inbound request: the right to send one response to that request. A
/// role never looks inside a handle; it hands it back with the response or
/// lets it go.
#[derive(Debug, PartialEq, Eq)]
pub enum Event<C> {
    /// The transport now listens on `address`.
    NewListenAddr { address: String },
    /// `peer` sent `request`, which the transport knows as `id`.
    InboundRequest { peer: PeerId, id: u64, request: Req, channel: C },
    /// A response arrived.
    Response { envelope: ResponseEnvelope },
    /// The response to the request that the transport knows as `id` has
    /// been handed to `peer`.
    ResponseSent { peer: PeerId, id: u64 },
    /// Any other report of the request/response exchange, such as a failed
    /// delivery.
    RawError,
    /// A report of the connection beneath the exchange.
    Connection,
}

/// Why a role refuses an event. A role that refuses an event stays as it
/// was; what to do next is the caller's choice.
#[derive(Debug, Clone, Copy, PartialEq, Eq, Structural)]
pub enum SessionError {
    /// The role does not take this event in its present state.
    UnexpectedEvent,
    /// A response arrived whose identifier is not outstanding.
    UnmatchedResponse,
}

} // verus!
