//! Peer identifiers.
//!
//! A peer identifier is an opaque run of bytes that the transport hands
//! out. This module never builds one; it only reads one back from its
//! Base58 text, and keeps the bytes.

use crate::message::same_bytes;
use rust_base58::base58::FromBase58Error;
use rust_base58::FromBase58;
use vstd::prelude::*;
use vstd::utf8::encode_utf8;

verus! {

/// Why a peer identifier could not be read from its text.
#[derive(Debug, Clone, Copy, PartialEq, Eq, Structural)]
pub enum TransportError {
    /// The text holds a byte outside the Base58 alphabet. `position` is the
    /// index of the last such byte, counted in bytes from the start.
    PeerText { byte: u8, position: usize },
    /// The text is Base58, but the bytes that it stands for are not a peer
    /// identifier.
    PeerBytes,
}

/// Whether `byte` is a digit of the Base58 alphabet: the ASCII digits and
/// letters without `0`, `O`, `I` and `l`.
pub open spec fn is_base58_digit(byte: u8) -> bool {
    ||| 49 <= byte <= 57
    ||| 65 <= byte <= 72
    ||| 74 <= byte <= 78
    ||| 80 <= byte <= 90
    ||| 97 <= byte <= 107
    ||| 109 <= byte <= 122
}

/// Whether `text`, taken byte by byte, is made of Base58 digits alone.
pub open spec fn is_base58(text: Seq<u8>) -> bool {
    forall|i: int| 0 <= i < text.len() ==> is_base58_digit(#[trigger] text[i])
}

/// The bytes that Base58 digits stand for.
pub uninterp spec fn base58_value(digits: Seq<u8>) -> Seq<u8>;

/// Whether the transport takes `bytes` for a peer identifier.
pub uninterp spec fn names_a_peer(bytes: Seq<u8>) -> bool;

/// Whether `text` is the Base58 form of the peer identifier `peer`.
pub open spec fn decodes_to(text: Seq<char>, peer: Seq<u8>) -> bool {
    &&& is_base58(encode_utf8(text))
    &&& names_a_peer(base58_value(encode_utf8(text)))
    &&& peer == base58_value(encode_utf8(text))
}

/// Whether `error` is what is wrong with `text` as the Base58 form of a
/// peer identifier.
pub open spec fn fails_with(text: Seq<char>, error: TransportError) -> bool {
    match error {
        TransportError::PeerText { byte, position } => {
            &&& position < encode_utf8(text).len()
            &&& encode_utf8(text)[position as int] == byte
            &&& !is_base58_digit(byte)
            &&& forall|j: int|
                position < j < encode_utf8(text).len() ==> is_base58_digit(
                    #[trigger] encode_utf8(text)[j],
                )
        },
        TransportError::PeerBytes => {
            &&& is_base58(encode_utf8(text))
            &&& !names_a_peer(base58_value(encode_utf8(text)))
        },
    }
}

/// Text is the Base58 form of at most one peer identifier, and text that
/// is one is not at fault.
pub proof fn law_decoding_is_decided(text: Seq<char>, peer: Seq<u8>, error: TransportError)
    ensures
        !(decodes_to(text, peer) && fails_with(text, error)),
{
    if decodes_to(text, peer) {
        if let TransportError::PeerText { byte, position } = error {
            if fails_with(text, error) {
                assert(is_base58_digit(encode_utf8(text)[position as int]));
            }
        }
    }
}

/// Decodes Base58 text with `rust_base58::FromBase58::from_base58`. The
/// call succeeds exactly when every byte of the text is a Base58 digit,
/// and its bytes are then a function of the text alone. Otherwise it
/// reports the last byte that is no digit, with its index.
#[verifier::external_body]
fn base58_decode(text: &str) -> (r: Result<Vec<u8>, (u8, usize)>)
    ensures
        match r {
            Ok(bytes) => is_base58(encode_utf8(text@)) && bytes@ == base58_value(
                encode_utf8(text@),
            ),
            Err((byte, position)) => {
                &&& position < encode_utf8(text@).len()
                &&& encode_utf8(text@)[position as int] == byte
                &&& !is_base58_digit(byte)
                &&& forall|j: int|
                    position < j < encode_utf8(text@).len() ==> is_base58_digit(
                        #[trigger] encode_utf8(text@)[j],
                    )
            },
        },
{
    match text.from_base58() {
        Ok(bytes) => Ok(bytes),
        Err(FromBase58Error::InvalidBase58Byte(byte, position)) => Err((byte, position)),
    }
}

/// Asks `libp2p_core::PeerId::from_bytes` whether `bytes` are a peer
/// identifier. The answer is a function of the bytes alone.
#[verifier::external_body]
fn transport_accepts(bytes: &[u8]) -> (accepted: bool)
    ensures
        accepted == names_a_peer(bytes@),
{
    libp2p_core::PeerId::from_bytes(bytes).is_ok()
}

/// The identifier of a peer, as the bytes that the transport knows it by.
#[derive(Debug)]
pub struct PeerId {
    bytes: Vec<u8>,
}

impl View for PeerId {
    type V = Seq<u8>;

    closed spec fn view(&self) -> Seq<u8> {
        self.bytes@
    }
}

impl PeerId {
    #[verifier::type_invariant]
    spec fn accepted(&self) -> bool {
        names_a_peer(self.bytes@)
    }

    /// The identifier that `bytes` are, if they are one.
    pub fn from_bytes(bytes: Vec<u8>) -> (peer: Option<PeerId>)
        ensures
            peer is Some <==> names_a_peer(bytes@),
            peer is Some ==> peer->0@ == bytes@,
    {
        if transport_accepts(bytes.as_slice()) {
            Some(PeerId { bytes })
        } else {
            None
        }
    }

    /// The identifier that `text` encodes in Base58.
    pub fn from_base58(text: &str) -> (r: Result<PeerId, TransportError>)
        ensures
            match r {
                Ok(peer) => decodes_to(text@, peer@),
                Err(error) => fails_with(text@, error),
            },
    {
        match base58_decode(text) {
            Err((byte, position)) => Err(TransportError::PeerText { byte, position }),
            Ok(bytes) => match PeerId::from_bytes(bytes) {
                Some(peer) => Ok(peer),
                None => Err(TransportError::PeerBytes),
            },
        }
    }

    /// The bytes of the identifier, which the transport takes for one.
    pub fn as_bytes(&self) -> (bytes: &Vec<u8>)
        ensures
            bytes@ == self@,
            names_a_peer(bytes@),
    {
        proof {
            use_type_invariant(self);
        }
        &self.bytes
    }
}

impl Clone for PeerId {
    fn clone(&self) -> (copy: Self)
        ensures
            copy@ == self@,
    {
        proof {
            use_type_invariant(self);
        }
        PeerId { bytes: self.bytes.clone() }
    }
}

impl PartialEq for PeerId {
    fn eq(&self, other: &Self) -> (same: bool) {
        same_bytes(&self.bytes, &other.bytes)
    }
}

impl Eq for PeerId {

}

impl vstd::std_specs::cmp::PartialEqSpecImpl for PeerId {
    open spec fn obeys_eq_spec() -> bool {
        true
    }

    open spec fn eq_spec(&self, other: &Self) -> bool {
        self@ == other@
    }
}

} // verus!
