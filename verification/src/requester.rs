//! The requester: it sends a bounded run of pings, one at a time, and ends
//! the exchange with the sentinel.

use crate::correlation::{id_of, is_pending, Correlation};
use crate::event::{Event, RequestEnvelope, SessionError};
use crate::message::Req;
use crate::peer::PeerId;
use crate::text::{decimal, decimal_bytes, quit_bytes};
use vstd::prelude::*;

verus! {

/// The number of round trips that a requester makes when it is not told
/// otherwise.
pub const DEFAULT_PINGS: u32 = 3;

/// Where a requester stands.
#[derive(Debug, Clone, Copy, PartialEq, Eq, Structural)]
pub enum RequesterState {
    /// Nothing has been sent yet.
    Idle,
    /// One request is outstanding.
    AwaitingResponse,
    /// The sentinel has been sent. Nothing more is sent or awaited.
    Terminated,
}

/// What the caller is to do after an event.
#[derive(Debug, PartialEq, Eq)]
pub enum RequesterAction {
    /// Tell the transport that the envelope's peer is found at `address`,
    /// then send the envelope.
    Open { address: String, envelope: RequestEnvelope },
    /// Send the envelope and await its response.
    Send { envelope: RequestEnvelope },
    /// Send the envelope and stop, without awaiting a response.
    Finish { envelope: RequestEnvelope },
}

/// What a requester is, as far as its contracts go.
pub struct RequesterView {
    pub state: RequesterState,
    /// The peer that every request goes to.
    pub target: Seq<u8>,
    /// Where that peer is found.
    pub address: Seq<char>,
    /// The number of round trips to make.
    pub budget: u32,
    /// The number of responses taken so far.
    pub count: u32,
    /// The number of requests sent so far. They carry the identifiers
    /// from 1 up to this number, in the order in which they went out.
    pub sent: nat,
    /// The identifier that awaits a response, if one does.
    pub outstanding: Option<u64>,
}

impl RequesterView {
    /// What holds of every requester: it has sent nothing before it opens,
    /// and while it awaits a response its latest request is the one
    /// outstanding, one more request has been sent than responses taken,
    /// and the budget is not yet met (but for the first request, which is
    /// sent whatever the budget).
    pub open spec fn consistent(self) -> bool {
        match self.state {
            RequesterState::Idle => self.count == 0 && self.sent == 0 && self.outstanding is None,
            RequesterState::AwaitingResponse => {
                &&& self.sent == self.count + 1
                &&& (self.count < self.budget || self.count == 0)
                &&& self.outstanding == Some(self.sent as u64)
            },
            RequesterState::Terminated => self.outstanding is None,
        }
    }
}

/// The payload of the ping that follows `count` responses.
pub open spec fn ping(count: nat) -> Seq<u8> {
    decimal(count)
}

/// The request that pings for the round trip after `count` responses.
pub fn ping_request(count: u32) -> (request: Req)
    ensures
        request@ == ping(count as nat),
{
    Req(decimal_bytes(count))
}

/// The request that carries the sentinel.
pub fn quit_request() -> (request: Req)
    ensures
        request@ == quit_bytes(),
{
    let mut bytes: Vec<u8> = Vec::new();
    bytes.push(113);
    bytes.push(117);
    bytes.push(105);
    bytes.push(116);
    assert(bytes@ =~= quit_bytes());
    Req(bytes)
}

/// The requester role of one session.
pub struct Requester {
    state: RequesterState,
    target: PeerId,
    address: String,
    budget: u32,
    count: u32,
    correlation: Correlation<Req>,
}

impl View for Requester {
    type V = RequesterView;

    closed spec fn view(&self) -> RequesterView {
        RequesterView {
            state: self.state,
            target: self.target@,
            address: self.address@,
            budget: self.budget,
            count: self.count,
            sent: self.correlation.issued(),
            outstanding: if self.correlation.pending().len() > 0 {
                Some(self.correlation.pending()[0].0)
            } else {
                None
            },
        }
    }
}

impl Requester {
    /// Whether the requester is in order: it is consistent, and it never
    /// has more than one request outstanding.
    pub closed spec fn wf(&self) -> bool {
        &&& self@.consistent()
        &&& self.correlation.pending().len() <= 1
    }

    /// A requester in order is consistent.
    pub proof fn lemma_consistent(&self)
        requires
            self.wf(),
        ensures
            self@.consistent(),
    {
    }

    /// A requester that will make `budget` round trips with `target`, found
    /// at `address`, and has sent nothing yet.
    pub fn new(target: PeerId, address: String, budget: u32) -> (requester: Requester)
        ensures
            requester.wf(),
            requester@ == (RequesterView {
                state: RequesterState::Idle,
                target: target@,
                address: address@,
                budget,
                count: 0,
                sent: 0,
                outstanding: None,
            }),
    {
        Requester {
            state: RequesterState::Idle,
            target,
            address,
            budget,
            count: 0,
            correlation: Correlation::new(),
        }
    }

    /// Whether the requester is in order, for a caller that wants to make
    /// sure at run time.
    pub fn in_order(&self) -> (ok: bool)
        ensures
            ok == self.wf(),
    {
        let sent = self.correlation.count_issued();
        let pending = self.correlation.count_pending();
        match self.state {
            RequesterState::Idle => self.count == 0 && sent == 0 && pending == 0,
            RequesterState::AwaitingResponse => {
                let latest = self.correlation.is_outstanding(sent);
                proof {
                    let entries = self.correlation.pending();
                    if pending == 1 && latest {
                        let at = choose|at: int|
                            0 <= at < entries.len() && (#[trigger] entries[at]).0 == sent;
                        assert(at == 0);
                    }
                    if pending == 1 && entries[0].0 == sent {
                        assert(is_pending(entries, sent));
                    }
                }
                self.count < u32::MAX && sent == self.count as u64 + 1 && (self.count
                    < self.budget || self.count == 0) && pending == 1 && latest
            },
            RequesterState::Terminated => pending == 0,
        }
    }

    /// Where the requester stands.
    pub fn state(&self) -> (state: RequesterState)
        ensures
            state == self@.state,
    {
        self.state
    }

    /// The number of responses taken so far.
    pub fn count(&self) -> (count: u32)
        ensures
            count == self@.count,
    {
        self.count
    }

    /// Whether the requester has sent the sentinel.
    pub fn is_terminated(&self) -> (done: bool)
        ensures
            done == (self@.state == RequesterState::Terminated),
    {
        self.state == RequesterState::Terminated
    }

    /// Opens the exchange: the first ping, with payload `0`, goes out under
    /// the session's first identifier, and the requester awaits its
    /// response. A requester that has already opened refuses.
    pub fn start(&mut self) -> (r: Result<RequesterAction, SessionError>)
        requires
            old(self).wf(),
        ensures
            final(self).wf(),
            old(self)@.state != RequesterState::Idle ==> {
                &&& r == Err::<RequesterAction, SessionError>(SessionError::UnexpectedEvent)
                &&& final(self)@ == old(self)@
            },
            old(self)@.state == RequesterState::Idle ==> {
                &&& r matches Ok(RequesterAction::Open { address, envelope })
                &&& address@ == old(self)@.address
                &&& envelope.id == 1
                &&& envelope.peer@ == old(self)@.target
                &&& envelope.request@ == ping(0)
                &&& final(self)@ == (RequesterView {
                    state: RequesterState::AwaitingResponse,
                    sent: 1,
                    outstanding: Some(1u64),
                    ..old(self)@
                })
            },
    {
        if self.state != RequesterState::Idle {
            return Err(SessionError::UnexpectedEvent);
        }
        let envelope = self.dispatch(ping_request(0), true);
        self.state = RequesterState::AwaitingResponse;
        Ok(RequesterAction::Open { address: self.address.clone(), envelope })
    }

    /// Takes one event and says what to do about it.
    ///
    /// Only a response to the outstanding request is taken, and only while
    /// one is awaited. It is counted first and the count is then held
    /// against the budget: once the budget is met the sentinel goes out and
    /// the requester terminates, else the next ping goes out, with the
    /// count as its payload. Either request carries the identifier that
    /// follows the latest one, so identifiers only go up.
    pub fn on_event<C>(&mut self, event: Event<C>) -> (r: Result<RequesterAction, SessionError>)
        requires
            old(self).wf(),
        ensures
            final(self).wf(),
            r is Err ==> final(self)@ == old(self)@,
            match event {
                Event::Response { envelope: response } => {
                    if old(self)@.state != RequesterState::AwaitingResponse {
                        r == Err::<RequesterAction, SessionError>(SessionError::UnexpectedEvent)
                    } else if old(self)@.outstanding != Some(response.id) {
                        r == Err::<RequesterAction, SessionError>(SessionError::UnmatchedResponse)
                    } else if old(self)@.count + 1 >= old(self)@.budget {
                        &&& r matches Ok(RequesterAction::Finish { envelope })
                        &&& envelope.id == old(self)@.sent + 1
                        &&& envelope.peer@ == old(self)@.target
                        &&& envelope.request@ == quit_bytes()
                        &&& final(self)@ == (RequesterView {
                            state: RequesterState::Terminated,
                            count: (old(self)@.count + 1) as u32,
                            sent: old(self)@.sent + 1,
                            outstanding: None,
                            ..old(self)@
                        })
                    } else {
                        &&& r matches Ok(RequesterAction::Send { envelope })
                        &&& envelope.id == old(self)@.sent + 1
                        &&& envelope.peer@ == old(self)@.target
                        &&& envelope.request@ == ping(old(self)@.count as nat + 1)
                        &&& final(self)@ == (RequesterView {
                            count: (old(self)@.count + 1) as u32,
                            sent: old(self)@.sent + 1,
                            outstanding: Some(envelope.id),
                            ..old(self)@
                        })
                    }
                },
                _ => r == Err::<RequesterAction, SessionError>(SessionError::UnexpectedEvent),
            },
    {
        let response = match event {
            Event::Response { envelope } => envelope,
            _ => {
                return Err(SessionError::UnexpectedEvent);
            },
        };
        if self.state != RequesterState::AwaitingResponse {
            return Err(SessionError::UnexpectedEvent);
        }
        let ghost before = self.correlation.pending();
        match self.correlation.resolve(response.id) {
            None => {
                assert(!is_pending(before, response.id));
                assert(before[0].0 != response.id);
                return Err(SessionError::UnmatchedResponse);
            },
            Some(_) => {
                assert(before[0].0 == response.id);
                assert(self.correlation.pending() =~= before.remove(0));
            },
        }
        self.count = self.count + 1;
        if self.count >= self.budget {
            let envelope = self.dispatch(quit_request(), false);
            self.state = RequesterState::Terminated;
            Ok(RequesterAction::Finish { envelope })
        } else {
            let envelope = self.dispatch(ping_request(self.count), true);
            Ok(RequesterAction::Send { envelope })
        }
    }

    /// Wraps `request` for the target under the next identifier, and
    /// records it as outstanding if a response is expected.
    fn dispatch(&mut self, request: Req, expect_response: bool) -> (envelope: RequestEnvelope)
        requires
            old(self).correlation.issued() <= u32::MAX,
            old(self).correlation.pending().len() == 0,
        ensures
            id_of(old(self).correlation.issued()) == Some(envelope.id),
            envelope.peer@ == old(self).target@,
            envelope.request@ == request@,
            final(self).correlation.issued() == old(self).correlation.issued() + 1,
            final(self).correlation.pending().len() == if expect_response {
                1nat
            } else {
                0nat
            },
            final(self)@.outstanding == if expect_response {
                Some(envelope.id)
            } else {
                None
            },
            final(self).state == old(self).state,
            final(self).target == old(self).target,
            final(self).address == old(self).address,
            final(self).budget == old(self).budget,
            final(self).count == old(self).count,
    {
        let id = self.correlation.next_id().unwrap();
        if expect_response {
            self.correlation.register(id, request.clone());
        }
        RequestEnvelope { id, peer: self.target.clone(), request }
    }
}

} // verus!
