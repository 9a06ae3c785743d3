//! Length-delimited frames.
//!
//! One message travels as one frame: the payload's length as a varint,
//! then the payload itself. A frame carries at least one byte and at most
//! [`MAX_PAYLOAD`] bytes. Lengths that small fit in a two-byte prefix, so a
//! prefix that runs into a third byte already declares too much, and the
//! decoder reads no further into it.

use crate::message::MAX_PAYLOAD;
use crate::varint::{lemma_varint_long, lemma_varint_two_bytes, push_varint, varint};
use vstd::prelude::*;
use vstd::slice::{slice_subrange, slice_to_vec};

verus! {

/// Why a frame could not be read. Each of these ends the session that owns
/// the stream; none is retried.
#[derive(Debug, Clone, Copy, PartialEq, Eq, Structural)]
pub enum FramingError {
    /// No payload: the stream ended before its first byte, or the frame
    /// declares a length of zero.
    Empty,
    /// The stream ended inside the length prefix or inside the payload.
    Truncated,
    /// The frame declares more than [`MAX_PAYLOAD`] bytes: its length is
    /// above the limit, or its prefix runs past two bytes.
    Oversized,
    /// The length prefix is not a minimal varint.
    Malformed,
}

impl FramingError {
    /// Whether the error says that the stream ended where a message was
    /// due, rather than that its bytes were wrong.
    pub fn is_end_of_stream(&self) -> (ended: bool)
        ensures
            ended == (*self == FramingError::Empty),
    {
        match self {
            FramingError::Empty => true,
            _ => false,
        }
    }
}

/// The most bytes that a frame can take up: a prefix of two bytes and the
/// largest payload.
pub const MAX_FRAME: usize = 1026;

/// The frame that carries `payload`.
pub open spec fn frame(payload: Seq<u8>) -> Seq<u8> {
    varint(payload.len()) + payload
}

/// The length that the front of `s` declares, with the number of bytes that
/// declare it. A stream that ends before its first byte declares nothing,
/// which counts as a length of zero.
pub open spec fn parse_prefix(s: Seq<u8>) -> Result<(nat, nat), FramingError> {
    if s.len() == 0 {
        Ok((0, 0))
    } else if s[0] < 128 {
        Ok((s[0] as nat, 1))
    } else if s.len() == 1 {
        Err(FramingError::Truncated)
    } else if s[1] >= 128 {
        Err(FramingError::Oversized)
    } else if s[1] == 0 {
        Err(FramingError::Malformed)
    } else {
        Ok(((s[0] - 128 + 128 * s[1]) as nat, 2))
    }
}

/// The payload of the frame at the front of `s`, with the number of bytes
/// that the frame takes up, or the reason why there is no such frame.
pub open spec fn parse_frame(s: Seq<u8>) -> Result<(Seq<u8>, nat), FramingError> {
    match parse_prefix(s) {
        Err(e) => Err(e),
        Ok((n, k)) => {
            if n == 0 {
                Err(FramingError::Empty)
            } else if n > MAX_PAYLOAD {
                Err(FramingError::Oversized)
            } else if s.len() < k + n {
                Err(FramingError::Truncated)
            } else {
                Ok((s.subrange(k as int, (k + n) as int), k + n))
            }
        },
    }
}

/// A prefix that is accepted is the varint of the length it declares.
pub proof fn law_prefix_is_varint(s: Seq<u8>)
    requires
        s.len() > 0,
        parse_prefix(s) is Ok,
    ensures
        s.subrange(0, parse_prefix(s)->Ok_0.1 as int) == varint(parse_prefix(s)->Ok_0.0),
{
    let (n, k) = parse_prefix(s)->Ok_0;
    if s[0] < 128 {
        assert(s.subrange(0, 1) =~= seq![s[0]]);
    } else {
        lemma_varint_two_bytes(n);
        assert(n % 128 == s[0] - 128);
        assert(n / 128 == s[1]);
        assert(s.subrange(0, 2) =~= seq![s[0], s[1]]);
    }
}

/// The varint of a length is read back as that length, whatever follows it,
/// unless the length needs more than two bytes, which is always too much.
pub proof fn lemma_parse_varint(n: nat, rest: Seq<u8>)
    ensures
        n < 16384 ==> parse_prefix(varint(n) + rest) == Ok::<(nat, nat), FramingError>(
            (n, varint(n).len()),
        ),
        n >= 16384 ==> parse_prefix(varint(n) + rest) == Err::<(nat, nat), FramingError>(
            FramingError::Oversized,
        ),
{
    let s = varint(n) + rest;
    if n < 128 {
        assert(s[0] == n);
    } else if n < 16384 {
        lemma_varint_two_bytes(n);
        assert(s[0] == n % 128 + 128);
        assert(s[1] == n / 128);
    } else {
        lemma_varint_long(n);
        assert(s[0] == varint(n)[0]);
        assert(s[1] == varint(n)[1]);
    }
}

/// Reading back what was written: a payload of 1 to [`MAX_PAYLOAD`] bytes,
/// framed, decodes to the same payload and to the frame's whole length,
/// whatever bytes follow the frame on the stream.
pub proof fn law_round_trip(payload: Seq<u8>, rest: Seq<u8>)
    requires
        0 < payload.len() <= MAX_PAYLOAD,
    ensures
        parse_frame(frame(payload)) == Ok::<(Seq<u8>, nat), FramingError>(
            (payload, frame(payload).len()),
        ),
        parse_frame(frame(payload) + rest) == Ok::<(Seq<u8>, nat), FramingError>(
            (payload, frame(payload).len()),
        ),
{
    let n = payload.len();
    let k = varint(n).len();
    lemma_parse_varint(n, payload);
    lemma_parse_varint(n, payload + rest);
    assert(frame(payload) + rest =~= varint(n) + (payload + rest));
    assert(frame(payload).subrange(k as int, (k + n) as int) =~= payload);
    assert((frame(payload) + rest).subrange(k as int, (k + n) as int) =~= payload);
}

/// A payload above [`MAX_PAYLOAD`] bytes is never read back: its frame is
/// rejected as oversized, whatever follows it.
pub proof fn law_oversized_rejected(payload: Seq<u8>, rest: Seq<u8>)
    requires
        payload.len() > MAX_PAYLOAD,
    ensures
        parse_frame(frame(payload) + rest) == Err::<(Seq<u8>, nat), FramingError>(
            FramingError::Oversized,
        ),
{
    lemma_parse_varint(payload.len(), payload + rest);
    assert(frame(payload) + rest =~= varint(payload.len()) + (payload + rest));
}

/// An empty payload is never read back: neither its frame nor a stream
/// without any byte yields a message.
pub proof fn law_empty_rejected(rest: Seq<u8>)
    ensures
        parse_frame(Seq::<u8>::empty()) == Err::<(Seq<u8>, nat), FramingError>(
            FramingError::Empty,
        ),
        parse_frame(frame(Seq::<u8>::empty()) + rest) == Err::<(Seq<u8>, nat), FramingError>(
            FramingError::Empty,
        ),
{
    lemma_parse_varint(0, Seq::<u8>::empty() + rest);
    assert(frame(Seq::<u8>::empty()) + rest =~= varint(0) + (Seq::<u8>::empty() + rest));
}

/// A frame that can be read back takes up no more than [`MAX_FRAME`] bytes.
pub proof fn law_frame_fits(payload: Seq<u8>)
    requires
        payload.len() <= MAX_PAYLOAD,
    ensures
        frame(payload).len() <= MAX_FRAME,
{
    if payload.len() >= 128 {
        lemma_varint_two_bytes(payload.len());
    }
}

/// The first [`MAX_FRAME`] bytes of a stream decide what its first frame
/// is: a reader never needs to hold more than that.
pub proof fn law_first_bytes_decide(s: Seq<u8>)
    requires
        s.len() > MAX_FRAME,
    ensures
        parse_frame(s) == parse_frame(s.subrange(0, MAX_FRAME as int)),
{
    let head = s.subrange(0, MAX_FRAME as int);
    assert(head[0] == s[0]);
    assert(head[1] == s[1]);
    assert(parse_prefix(s) == parse_prefix(head));
    if let Ok((n, k)) = parse_prefix(s) {
        if 0 < n <= MAX_PAYLOAD {
            assert(head.subrange(k as int, (k + n) as int) =~= s.subrange(
                k as int,
                (k + n) as int,
            ));
        }
    }
}

/// What a buffer decodes to depends on its bytes alone: two buffers with
/// the same bytes give the same message, or fail alike.
pub proof fn law_decode_is_a_function(first: Seq<u8>, second: Seq<u8>)
    requires
        first =~= second,
    ensures
        parse_frame(first) == parse_frame(second),
{
}

/// The frame that carries `payload`.
pub fn encode_frame(payload: &[u8]) -> (bytes: Vec<u8>)
    ensures
        bytes@ == frame(payload@),
{
    let mut bytes: Vec<u8> = Vec::new();
    push_varint(&mut bytes, payload.len() as u64);
    let ghost prefix = bytes@;
    let mut i: usize = 0;
    while i < payload.len()
        invariant
            i <= payload.len(),
            bytes@ == prefix + payload@.subrange(0, i as int),
        decreases payload.len() - i,
    {
        let ghost before = bytes@;
        bytes.push(payload[i]);
        i += 1;
        assert(bytes@ =~= prefix + payload@.subrange(0, i as int));
    }
    assert(payload@.subrange(0, i as int) =~= payload@);
    bytes
}

/// Reads the frame at the front of `input`: its payload and the number of
/// bytes that the frame takes up.
pub fn decode_frame(input: &[u8]) -> (r: Result<(Vec<u8>, usize), FramingError>)
    ensures
        match r {
            Ok((payload, used)) => parse_frame(input@) == Ok::<(Seq<u8>, nat), FramingError>(
                (payload@, used as nat),
            ),
            Err(e) => parse_frame(input@) == Err::<(Seq<u8>, nat), FramingError>(e),
        },
{
    let have = input.len();
    if have == 0 {
        return Err(FramingError::Empty);
    }
    let first: u8 = input[0];
    let mut declared: usize = first as usize;
    let mut prefix: usize = 1;
    if first >= 128 {
        if have == 1 {
            return Err(FramingError::Truncated);
        }
        let second: u8 = input[1];
        if second >= 128 {
            return Err(FramingError::Oversized);
        }
        if second == 0 {
            return Err(FramingError::Malformed);
        }
        declared = (first - 128) as usize + 128 * (second as usize);
        prefix = 2;
    }
    if declared == 0 {
        return Err(FramingError::Empty);
    }
    if declared > MAX_PAYLOAD {
        return Err(FramingError::Oversized);
    }
    if have - prefix < declared {
        return Err(FramingError::Truncated);
    }
    let payload = slice_to_vec(slice_subrange(input, prefix, prefix + declared));
    Ok((payload, prefix + declared))
}

} // verus!
