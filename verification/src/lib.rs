//! A point-to-point request/response protocol engine: message framing,
//! request correlation and the two role state machines that drive an
//! exchange between a requester and a responder.

pub mod message;
pub mod varint;
pub mod framing;
pub mod text;
pub mod peer;
pub mod correlation;
pub mod event;
pub mod responder;
pub mod requester;
pub mod codec;
pub mod role;

pub use crate::codec::{ReqRespCodec, ReqRespProtocol, Stream};
pub use crate::event::{Event, RequestEnvelope, ResponseEnvelope, SessionError};
pub use crate::framing::FramingError;
pub use crate::message::{Req, Resp};
pub use crate::peer::{PeerId, TransportError};
pub use crate::requester::{Requester, RequesterAction, RequesterState};
pub use crate::responder::{Responder, ResponderAction, ResponderState};
pub use crate::role::Role;
