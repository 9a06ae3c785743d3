use reqresp::codec::{ReqRespCodec, ReqRespProtocol, Stream};
use reqresp::event::{Event, RequestEnvelope, ResponseEnvelope};
use reqresp::message::{Req, Resp};
use reqresp::peer::PeerId;
use reqresp::requester::{Requester, RequesterAction, RequesterState};
use reqresp::responder::{Responder, ResponderAction, ResponderState};

fn responder_id() -> PeerId {
    PeerId::from_bytes(vec![0, 4, 1, 2, 3, 4]).unwrap()
}

fn requester_id() -> PeerId {
    PeerId::from_bytes(vec![0, 2, 9, 9]).unwrap()
}

fn carry_request(envelope: &RequestEnvelope) -> Req {
    let mut codec = ReqRespCodec();
    let protocol = ReqRespProtocol();
    let mut out = Stream::new(Vec::new());
    codec.write_request(&protocol, &mut out, envelope.request.clone());
    let mut back = Stream::new(out.into_written());
    codec.read_request(&protocol, &mut back).unwrap()
}

fn carry_response(envelope: &ResponseEnvelope) -> Resp {
    let mut codec = ReqRespCodec();
    let protocol = ReqRespProtocol();
    let mut out = Stream::new(Vec::new());
    codec.write_response(&protocol, &mut out, envelope.response.clone());
    let mut back = Stream::new(out.into_written());
    codec.read_response(&protocol, &mut back).unwrap()
}

fn run(budget: u32) -> (Vec<Vec<u8>>, Vec<Vec<u8>>, Requester, Responder) {
    let mut responder = Responder::new(responder_id());
    let mut requester = Requester::new(responder_id(), "/ip4/127.0.0.1/tcp/61241".to_string(), budget);
    let mut seen_by_responder = Vec::new();
    let mut seen_by_requester = Vec::new();
    let mut outbound = match requester.start().unwrap() {
        RequesterAction::Open { envelope, .. } => envelope,
        other => panic!("not opened: {:?}", other),
    };
    loop {
        let request = carry_request(&outbound);
        seen_by_responder.push(request.0.clone());
        let event = Event::InboundRequest { peer: requester_id(), id: outbound.id, request, channel: outbound.id };
        let reply = match responder.on_event(event).unwrap() {
            ResponderAction::Reply { channel, envelope } => {
                assert_eq!(channel, outbound.id);
                envelope
            }
            ResponderAction::Shutdown { .. } => break,
            other => panic!("neither reply nor shutdown: {:?}", other),
        };
        let response = carry_response(&reply);
        seen_by_requester.push(response.0.clone());
        let arrived = ResponseEnvelope { id: reply.id, peer: reply.peer, response };
        outbound = match requester.on_event(Event::<u64>::Response { envelope: arrived }).unwrap() {
            RequesterAction::Send { envelope } => envelope,
            RequesterAction::Finish { envelope } => envelope,
            other => panic!("opened twice: {:?}", other),
        };
    }
    (seen_by_responder, seen_by_requester, requester, responder)
}

#[test]
fn one_ping_then_quit() {
    let (requests, responses, requester, responder) = run(1);
    assert_eq!(requests, vec![b"0".to_vec(), b"quit".to_vec()]);
    assert_eq!(responses, vec![b"Hello 0".to_vec()]);
    assert_eq!(requester.state(), RequesterState::Terminated);
    assert_eq!(responder.state(), ResponderState::Terminated);
}

#[test]
fn three_pings_then_quit() {
    let (requests, responses, requester, responder) = run(3);
    assert_eq!(
        requests,
        vec![b"0".to_vec(), b"1".to_vec(), b"2".to_vec(), b"quit".to_vec()]
    );
    assert_eq!(
        responses,
        vec![b"Hello 0".to_vec(), b"Hello 1".to_vec(), b"Hello 2".to_vec()]
    );
    assert!(requester.is_terminated());
    assert!(responder.is_terminated());
    assert_eq!(requester.count(), 3);
}

#[test]
fn twelve_pings_have_two_digits_at_the_end() {
    let (requests, responses, _, _) = run(12);
    assert_eq!(requests.len(), 13);
    assert_eq!(requests[11], b"11".to_vec());
    assert_eq!(responses[11], b"Hello 11".to_vec());
}
