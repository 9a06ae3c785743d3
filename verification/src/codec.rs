//! The codec: requests and responses to and from a byte stream.
//!
//! Both ends agree on the protocol's name before the codec sees a stream;
//! the codec itself never checks the name on the wire.

use crate::framing::{decode_frame, encode_frame, frame, parse_frame, FramingError};
use crate::message::{Req, Resp};
use vstd::prelude::*;
use vstd::slice::{slice_subrange, slice_to_vec};
use vstd::utf8::{encode_utf8, is_ascii_chars, is_ascii_chars_encode_utf8};

verus! {

/// The bytes of the protocol's name, `/reqresp/1`.
pub open spec fn protocol_bytes() -> Seq<u8> {
    seq![47u8, 114u8, 101u8, 113u8, 114u8, 101u8, 115u8, 112u8, 47u8, 49u8]
}

/// The protocol that the codec speaks.
#[derive(Debug, Clone, Copy, PartialEq, Eq, Structural)]
pub struct ReqRespProtocol();

impl ReqRespProtocol {
    /// The name that both ends must agree on, byte for byte.
    pub fn protocol_name(&self) -> (name: &'static [u8])
        ensures
            name@ == protocol_bytes(),
    {
        let text: &'static str = "/reqresp/1";
        proof {
            reveal_strlit("/reqresp/1");
            assert(is_ascii_chars(text@));
            is_ascii_chars_encode_utf8(text@);
            assert(encode_utf8(text@) =~= protocol_bytes());
        }
        text.as_bytes()
    }
}

/// One end of a two-way byte stream, held in memory: the bytes that have
/// come in and are still unread, and the bytes that have gone out.
#[derive(Debug)]
pub struct Stream {
    incoming: Vec<u8>,
    outgoing: Vec<u8>,
}

impl Stream {
    /// The bytes that have come in and are still unread.
    pub closed spec fn unread(&self) -> Seq<u8> {
        self.incoming@
    }

    /// The bytes that have gone out, oldest first.
    pub closed spec fn written(&self) -> Seq<u8> {
        self.outgoing@
    }

    /// A stream on which `incoming` has come in and nothing has gone out.
    pub fn new(incoming: Vec<u8>) -> (stream: Stream)
        ensures
            stream.unread() == incoming@,
            stream.written() == Seq::<u8>::empty(),
    {
        Stream { incoming, outgoing: Vec::new() }
    }

    /// How many bytes are still unread.
    pub fn remaining(&self) -> (n: usize)
        ensures
            n == self.unread().len(),
    {
        self.incoming.len()
    }

    /// The bytes that have gone out.
    pub fn into_written(self) -> (bytes: Vec<u8>)
        ensures
            bytes@ == self.written(),
    {
        self.outgoing
    }

    /// Takes the frame at the front of the unread bytes off the stream and
    /// returns its payload. Nothing but that frame is taken. Where there is
    /// no frame, the stream stays as it was.
    fn read_frame(&mut self) -> (r: Result<Vec<u8>, FramingError>)
        ensures
            final(self).written() == old(self).written(),
            match r {
                Ok(payload) => {
                    &&& parse_frame(old(self).unread()) is Ok
                    &&& parse_frame(old(self).unread())->Ok_0.0 == payload@
                    &&& final(self).unread() == old(self).unread().skip(
                        parse_frame(old(self).unread())->Ok_0.1 as int,
                    )
                },
                Err(e) => {
                    &&& parse_frame(old(self).unread()) == Err::<(Seq<u8>, nat), FramingError>(e)
                    &&& final(self).unread() == old(self).unread()
                },
            },
    {
        match decode_frame(self.incoming.as_slice()) {
            Err(e) => Err(e),
            Ok((payload, used)) => {
                let have = self.incoming.len();
                let rest = slice_to_vec(slice_subrange(self.incoming.as_slice(), used, have));
                assert(rest@ =~= self.incoming@.skip(used as int));
                self.incoming = rest;
                Ok(payload)
            },
        }
    }

    /// Puts the frame that carries `payload` on the stream.
    fn write_frame(&mut self, payload: &[u8])
        ensures
            final(self).written() == old(self).written() + frame(payload@),
            final(self).unread() == old(self).unread(),
    {
        let mut bytes = encode_frame(payload);
        self.outgoing.append(&mut bytes);
    }
}

/// The codec of the protocol: one message, one frame.
#[derive(Debug, Clone, Copy, PartialEq, Eq, Structural)]
pub struct ReqRespCodec();

impl ReqRespCodec {
    /// Reads one request off the stream. Exactly one frame is taken; where
    /// the unread bytes do not start with a frame, the read fails and the
    /// stream stays as it was.
    pub fn read_request(&mut self, _protocol: &ReqRespProtocol, io: &mut Stream) -> (r: Result<
        Req,
        FramingError,
    >)
        ensures
            final(io).written() == old(io).written(),
            match r {
                Ok(request) => {
                    &&& parse_frame(old(io).unread()) is Ok
                    &&& parse_frame(old(io).unread())->Ok_0.0 == request@
                    &&& final(io).unread() == old(io).unread().skip(
                        parse_frame(old(io).unread())->Ok_0.1 as int,
                    )
                },
                Err(e) => {
                    &&& parse_frame(old(io).unread()) == Err::<(Seq<u8>, nat), FramingError>(e)
                    &&& final(io).unread() == old(io).unread()
                },
            },
    {
        match io.read_frame() {
            Ok(payload) => Ok(Req(payload)),
            Err(e) => Err(e),
        }
    }

    /// Reads one response off the stream. Exactly one frame is taken; where
    /// the unread bytes do not start with a frame, the read fails and the
    /// stream stays as it was.
    pub fn read_response(&mut self, _protocol: &ReqRespProtocol, io: &mut Stream) -> (r: Result<
        Resp,
        FramingError,
    >)
        ensures
            final(io).written() == old(io).written(),
            match r {
                Ok(response) => {
                    &&& parse_frame(old(io).unread()) is Ok
                    &&& parse_frame(old(io).unread())->Ok_0.0 == response@
                    &&& final(io).unread() == old(io).unread().skip(
                        parse_frame(old(io).unread())->Ok_0.1 as int,
                    )
                },
                Err(e) => {
                    &&& parse_frame(old(io).unread()) == Err::<(Seq<u8>, nat), FramingError>(e)
                    &&& final(io).unread() == old(io).unread()
                },
            },
    {
        match io.read_frame() {
            Ok(payload) => Ok(Resp(payload)),
            Err(e) => Err(e),
        }
    }

    /// Writes one request to the stream, as one frame.
    pub fn write_request(&mut self, _protocol: &ReqRespProtocol, io: &mut Stream, request: Req)
        ensures
            final(io).written() == old(io).written() + frame(request@),
            final(io).unread() == old(io).unread(),
    {
        io.write_frame(request.0.as_slice());
    }

    /// Writes one response to the stream, as one frame.
    pub fn write_response(&mut self, _protocol: &ReqRespProtocol, io: &mut Stream, response: Resp)
        ensures
            final(io).written() == old(io).written() + frame(response@),
            final(io).unread() == old(io).unread(),
    {
        io.write_frame(response.0.as_slice());
    }
}

} // verus!
