//! The responder: it serves requests until one asks it to quit.

use crate::event::{Event, ResponseEnvelope, SessionError};
use crate::message::{Req, Resp};
use crate::peer::PeerId;
use crate::text::{
    decode_lossy, greeting, hello_bytes, hello_text, is_quit, lemma_encode_concat,
    lemma_hello_encoding, lemma_quit_encoding, lossy_text, quit_bytes, quit_text, text_bytes,
};
use vstd::prelude::*;
use vstd::utf8::{
    decode_utf8, decode_utf8_encode_utf8, encode_utf8, encode_utf8_decode_utf8, valid_utf8,
};

verus! {

/// How long, in milliseconds, a responder that was asked to quit should
/// wait before it stops, so that a response still on its way gets out.
pub const GRACE_MILLIS: u64 = 1000;

/// Where a responder stands.
#[derive(Debug, Clone, Copy, PartialEq, Eq, Structural)]
pub enum ResponderState {
    /// No request has been served yet.
    Listening,
    /// At least one request has been served.
    Serving,
    /// A request asked to quit. Nothing is served any more.
    Terminated,
}

/// What the caller is to do after an event.
#[derive(Debug, PartialEq, Eq)]
pub enum ResponderAction<C> {
    /// Make the listen address known.
    Announce { address: String },
    /// Send `envelope` on `channel`.
    Reply { channel: C, envelope: ResponseEnvelope },
    /// Take note that a response reached `peer`.
    Delivered { peer: PeerId, id: u64 },
    /// Nothing to do.
    Nothing,
    /// Wait `grace_millis` milliseconds, then stop.
    Shutdown { grace_millis: u64 },
}

/// The bytes that answer a request whose text is `text`: none for the
/// sentinel, else the greeting and the text, in UTF-8.
pub open spec fn reply_to(text: Seq<char>) -> Option<Seq<u8>> {
    if text == quit_text() {
        None
    } else {
        Some(encode_utf8(hello_text() + text))
    }
}

/// Read as text, every reply is the greeting followed by the text of its
/// request.
pub proof fn law_reply_is_greeting(text: Seq<char>)
    requires
        text != quit_text(),
    ensures
        reply_to(text) is Some,
        valid_utf8(reply_to(text)->0),
        decode_utf8(reply_to(text)->0) == hello_text() + text,
{
    vstd::utf8::encode_utf8_valid_utf8(hello_text() + text);
    encode_utf8_decode_utf8(hello_text() + text);
}

/// The sentinel gets no reply, and nothing else goes without one.
pub proof fn law_only_quit_goes_unanswered(text: Seq<char>)
    ensures
        reply_to(text) is None <==> text == quit_text(),
{
}

/// On the wire: a request that is valid UTF-8 gets the greeting's bytes
/// followed by its own bytes for a reply, unless its bytes are the
/// sentinel's, which get none.
pub proof fn law_reply_bytes(request: Seq<u8>)
    requires
        valid_utf8(request),
    ensures
        reply_to(decode_utf8(request)) == if request == quit_bytes() {
            None
        } else {
            Some(hello_bytes() + request)
        },
{
    let text = decode_utf8(request);
    decode_utf8_encode_utf8(request);
    lemma_quit_encoding();
    lemma_hello_encoding();
    lemma_encode_concat(hello_text(), text);
}

/// The response to a request whose text is `text`, if it gets one.
pub fn answer_text(text: &str) -> (reply: Option<Resp>)
    ensures
        match reply {
            Some(response) => reply_to(text@) == Some(response@),
            None => reply_to(text@) is None,
        },
{
    if is_quit(text) {
        None
    } else {
        let reply = greeting(text);
        Some(Resp(text_bytes(reply.as_str())))
    }
}

/// The response to `request`, if it gets one. The request is read as
/// text, with a replacement character for what is not valid UTF-8.
pub fn answer(request: &Req) -> (reply: Option<Resp>)
    ensures
        match reply {
            Some(response) => reply_to(lossy_text(request@)) == Some(response@),
            None => reply_to(lossy_text(request@)) is None,
        },
        valid_utf8(request@) ==> lossy_text(request@) == decode_utf8(request@),
{
    let text = decode_lossy(request.0.as_slice());
    answer_text(text.as_str())
}

/// What a responder is, as far as its contracts go.
pub struct ResponderView {
    pub state: ResponderState,
    pub local: Seq<u8>,
}

/// The responder role of one session.
#[derive(Debug)]
pub struct Responder {
    state: ResponderState,
    local: PeerId,
}

impl View for Responder {
    type V = ResponderView;

    closed spec fn view(&self) -> ResponderView {
        ResponderView { state: self.state, local: self.local@ }
    }
}

impl Responder {
    /// A responder that listens as `local` and has served nothing yet.
    pub fn new(local: PeerId) -> (responder: Responder)
        ensures
            responder@.state == ResponderState::Listening,
            responder@.local == local@,
    {
        Responder { state: ResponderState::Listening, local }
    }

    /// Where the responder stands.
    pub fn state(&self) -> (state: ResponderState)
        ensures
            state == self@.state,
    {
        self.state
    }

    /// Whether the responder has stopped serving.
    pub fn is_terminated(&self) -> (done: bool)
        ensures
            done == (self@.state == ResponderState::Terminated),
    {
        self.state == ResponderState::Terminated
    }

    /// Takes one event and says what to do about it.
    ///
    /// A request is answered once, on the channel that came with it, unless
    /// its text is the sentinel: then the responder terminates and the
    /// channel goes unused. A terminated responder takes no event, so it
    /// never hands a channel back.
    pub fn on_event<C>(&mut self, event: Event<C>) -> (r: Result<ResponderAction<C>, SessionError>)
        ensures
            final(self)@.local == old(self)@.local,
            r is Err ==> final(self)@ == old(self)@,
            old(self)@.state == ResponderState::Terminated ==> r == Err::<
                ResponderAction<C>,
                SessionError,
            >(SessionError::UnexpectedEvent),
            old(self)@.state != ResponderState::Terminated ==> match event {
                Event::NewListenAddr { address } => {
                    &&& r == Ok::<ResponderAction<C>, SessionError>(
                        ResponderAction::Announce { address },
                    )
                    &&& final(self)@ == old(self)@
                },
                Event::InboundRequest { peer, id, request, channel } => {
                    &&& valid_utf8(request@) ==> lossy_text(request@) == decode_utf8(request@)
                    &&& match reply_to(lossy_text(request@)) {
                        None => {
                            &&& r == Ok::<ResponderAction<C>, SessionError>(
                                ResponderAction::Shutdown { grace_millis: GRACE_MILLIS },
                            )
                            &&& final(self)@.state == ResponderState::Terminated
                        },
                        Some(bytes) => {
                            &&& r matches Ok(ResponderAction::Reply { channel: used, envelope })
                            &&& used == channel
                            &&& envelope.id == id
                            &&& envelope.peer@ == old(self)@.local
                            &&& envelope.response@ == bytes
                            &&& final(self)@.state == ResponderState::Serving
                        },
                    }
                },
                Event::ResponseSent { peer, id } => {
                    &&& r == Ok::<ResponderAction<C>, SessionError>(
                        ResponderAction::Delivered { peer, id },
                    )
                    &&& final(self)@ == old(self)@
                },
                Event::Connection => {
                    &&& r == Ok::<ResponderAction<C>, SessionError>(ResponderAction::Nothing)
                    &&& final(self)@ == old(self)@
                },
                Event::Response { .. } | Event::RawError => r == Err::<
                    ResponderAction<C>,
                    SessionError,
                >(SessionError::UnexpectedEvent),
            },
    {
        if self.is_terminated() {
            return Err(SessionError::UnexpectedEvent);
        }
        match event {
            Event::NewListenAddr { address } => Ok(ResponderAction::Announce { address }),
            Event::InboundRequest { peer, id, request, channel } => match answer(&request) {
                None => {
                    self.state = ResponderState::Terminated;
                    Ok(ResponderAction::Shutdown { grace_millis: GRACE_MILLIS })
                },
                Some(response) => {
                    self.state = ResponderState::Serving;
                    let envelope = ResponseEnvelope { id, peer: self.local.clone(), response };
                    Ok(ResponderAction::Reply { channel, envelope })
                },
            },
            Event::ResponseSent { peer, id } => Ok(ResponderAction::Delivered { peer, id }),
            Event::Connection => Ok(ResponderAction::Nothing),
            Event::Response { .. } => Err(SessionError::UnexpectedEvent),
            Event::RawError => Err(SessionError::UnexpectedEvent),
        }
    }
}

} // verus!
