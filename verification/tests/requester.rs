use reqresp::event::{Event, RequestEnvelope, ResponseEnvelope, SessionError};
use reqresp::message::{Req, Resp};
use reqresp::peer::PeerId;
use reqresp::requester::{
    ping_request, quit_request, Requester, RequesterAction, RequesterState, DEFAULT_PINGS,
};

const ADDRESS: &str = "/ip4/127.0.0.1/tcp/61241";

fn target() -> PeerId {
    PeerId::from_bytes(vec![0, 4, 1, 2, 3, 4]).unwrap()
}

fn requester(budget: u32) -> Requester {
    Requester::new(target(), ADDRESS.to_string(), budget)
}

fn response(id: u64, text: &str) -> Event<()> {
    Event::Response {
        envelope: ResponseEnvelope { id, peer: target(), response: Resp(text.as_bytes().to_vec()) },
    }
}

fn envelope(id: u64, text: &str) -> RequestEnvelope {
    RequestEnvelope { id, peer: target(), request: Req(text.as_bytes().to_vec()) }
}

#[test]
fn ping_payload_is_the_count_in_decimal() {
    assert_eq!(ping_request(0), Req(b"0".to_vec()));
    assert_eq!(ping_request(12), Req(b"12".to_vec()));
    assert_eq!(quit_request(), Req(b"quit".to_vec()));
}

#[test]
fn default_budget_is_three() {
    assert_eq!(DEFAULT_PINGS, 3);
}

#[test]
fn new_requester_is_idle() {
    let requester = requester(3);
    assert_eq!(requester.state(), RequesterState::Idle);
    assert_eq!(requester.count(), 0);
    assert!(!requester.is_terminated());
}

#[test]
fn start_sends_the_first_ping() {
    let mut requester = requester(3);
    assert_eq!(
        requester.start(),
        Ok(RequesterAction::Open { address: ADDRESS.to_string(), envelope: envelope(1, "0") })
    );
    assert_eq!(requester.state(), RequesterState::AwaitingResponse);
}

#[test]
fn start_happens_once() {
    let mut requester = requester(3);
    requester.start().unwrap();
    assert_eq!(requester.start(), Err(SessionError::UnexpectedEvent));
    assert_eq!(requester.state(), RequesterState::AwaitingResponse);
}

#[test]
fn budget_of_three_sends_four_requests() {
    let mut requester = requester(3);
    assert_eq!(
        requester.start(),
        Ok(RequesterAction::Open { address: ADDRESS.to_string(), envelope: envelope(1, "0") })
    );
    assert_eq!(
        requester.on_event(response(1, "Hello 0")),
        Ok(RequesterAction::Send { envelope: envelope(2, "1") })
    );
    assert_eq!(requester.state(), RequesterState::AwaitingResponse);
    assert_eq!(
        requester.on_event(response(2, "Hello 1")),
        Ok(RequesterAction::Send { envelope: envelope(3, "2") })
    );
    assert_eq!(requester.state(), RequesterState::AwaitingResponse);
    assert_eq!(
        requester.on_event(response(3, "Hello 2")),
        Ok(RequesterAction::Finish { envelope: envelope(4, "quit") })
    );
    assert_eq!(requester.state(), RequesterState::Terminated);
    assert_eq!(requester.count(), 3);
}

#[test]
fn terminated_requester_awaits_nothing() {
    let mut requester = requester(1);
    requester.start().unwrap();
    requester.on_event(response(1, "Hello 0")).unwrap();
    assert!(requester.is_terminated());
    assert_eq!(requester.on_event(response(2, "Hello quit")), Err(SessionError::UnexpectedEvent));
    assert_eq!(requester.state(), RequesterState::Terminated);
}

#[test]
fn budget_of_zero_still_makes_one_round_trip() {
    let mut requester = requester(0);
    assert_eq!(
        requester.start(),
        Ok(RequesterAction::Open { address: ADDRESS.to_string(), envelope: envelope(1, "0") })
    );
    assert_eq!(
        requester.on_event(response(1, "Hello 0")),
        Ok(RequesterAction::Finish { envelope: envelope(2, "quit") })
    );
    assert_eq!(requester.state(), RequesterState::Terminated);
    assert_eq!(requester.count(), 1);
}

#[test]
fn identifiers_of_requests_go_up() {
    let mut requester = requester(50);
    let mut last = match requester.start().unwrap() {
        RequesterAction::Open { envelope, .. } => envelope.id,
        other => panic!("not opened: {:?}", other),
    };
    loop {
        match requester.on_event(response(last, "Hello")).unwrap() {
            RequesterAction::Send { envelope } => {
                assert!(envelope.id > last);
                last = envelope.id;
            }
            RequesterAction::Finish { envelope } => {
                assert!(envelope.id > last);
                break;
            }
            other => panic!("opened twice: {:?}", other),
        }
    }
    assert_eq!(requester.count(), 50);
}

#[test]
fn response_to_another_request_is_unmatched() {
    let mut requester = requester(3);
    requester.start().unwrap();
    assert_eq!(requester.on_event(response(2, "Hello 0")), Err(SessionError::UnmatchedResponse));
    assert_eq!(requester.state(), RequesterState::AwaitingResponse);
    assert_eq!(requester.count(), 0);
    assert_eq!(
        requester.on_event(response(1, "Hello 0")),
        Ok(RequesterAction::Send { envelope: envelope(2, "1") })
    );
}

#[test]
fn response_is_taken_once() {
    let mut requester = requester(3);
    requester.start().unwrap();
    requester.on_event(response(1, "Hello 0")).unwrap();
    assert_eq!(requester.on_event(response(1, "Hello 0")), Err(SessionError::UnmatchedResponse));
    assert_eq!(requester.count(), 1);
}

#[test]
fn response_before_start_is_unexpected() {
    let mut requester = requester(3);
    assert_eq!(requester.on_event(response(1, "Hello 0")), Err(SessionError::UnexpectedEvent));
    assert_eq!(requester.state(), RequesterState::Idle);
}

#[test]
fn anything_but_a_response_is_unexpected() {
    let mut requester = requester(3);
    requester.start().unwrap();
    assert_eq!(requester.on_event(Event::<()>::RawError), Err(SessionError::UnexpectedEvent));
    assert_eq!(requester.on_event(Event::<()>::Connection), Err(SessionError::UnexpectedEvent));
    assert_eq!(
        requester.on_event(Event::<()>::ResponseSent { peer: target(), id: 1 }),
        Err(SessionError::UnexpectedEvent)
    );
    assert_eq!(
        requester.on_event(Event::<()>::NewListenAddr { address: ADDRESS.to_string() }),
        Err(SessionError::UnexpectedEvent)
    );
    assert_eq!(
        requester.on_event(Event::InboundRequest {
            peer: target(),
            id: 1,
            request: Req(b"0".to_vec()),
            channel: (),
        }),
        Err(SessionError::UnexpectedEvent)
    );
    assert_eq!(requester.state(), RequesterState::AwaitingResponse);
    assert_eq!(requester.count(), 0);
}

#[test]
fn requester_stays_in_order() {
    let mut requester = requester(2);
    assert!(requester.in_order());
    requester.start().unwrap();
    assert!(requester.in_order());
    assert_eq!(requester.on_event(response(9, "stray")), Err(SessionError::UnmatchedResponse));
    assert!(requester.in_order());
    requester.on_event(response(1, "Hello 0")).unwrap();
    assert!(requester.in_order());
    requester.on_event(response(2, "Hello 1")).unwrap();
    assert!(requester.in_order());
    assert!(requester.is_terminated());
}
