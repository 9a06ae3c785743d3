//! Payloads as text.
//!
//! Payloads are opaque bytes on the wire and UTF-8 text by convention. A
//! payload that is not valid UTF-8 is still read as text: each invalid
//! sequence becomes a replacement character.

use vstd::prelude::*;
use vstd::string::StringExecFns;
use vstd::utf8::{
    decode_utf8, encode_utf8, encode_utf8_decode_utf8, is_ascii_chars, is_ascii_chars_encode_utf8,
    valid_utf8,
};

verus! {

/// The text that lossy UTF-8 decoding makes of `bytes`.
pub uninterp spec fn lossy_text(bytes: Seq<u8>) -> Seq<char>;

/// The sentinel text that ends an exchange.
pub open spec fn quit_text() -> Seq<char> {
    seq!['q', 'u', 'i', 't']
}

/// The sentinel as it travels on the wire.
pub open spec fn quit_bytes() -> Seq<u8> {
    seq![113u8, 117u8, 105u8, 116u8]
}

/// The text that every reply starts with.
pub open spec fn hello_text() -> Seq<char> {
    seq!['H', 'e', 'l', 'l', 'o', ' ']
}

/// The start of every reply as it travels on the wire.
pub open spec fn hello_bytes() -> Seq<u8> {
    seq![72u8, 101u8, 108u8, 108u8, 111u8, 32u8]
}

/// The decimal digits of `n`, as ASCII bytes, most significant first.
pub open spec fn decimal(n: nat) -> Seq<u8>
    decreases n,
{
    if n < 10 {
        seq![(48 + n) as u8]
    } else {
        decimal(n / 10) + seq![(48 + n % 10) as u8]
    }
}

/// The sentinel's bytes are the UTF-8 encoding of the sentinel's text, and
/// they decode to it.
pub proof fn lemma_quit_encoding()
    ensures
        encode_utf8(quit_text()) == quit_bytes(),
        valid_utf8(quit_bytes()),
        decode_utf8(quit_bytes()) == quit_text(),
{
    let text = quit_text();
    assert(is_ascii_chars(text));
    is_ascii_chars_encode_utf8(text);
    let bytes = encode_utf8(text);
    assert(bytes.len() == 4);
    assert(bytes[0] == text[0] as u8);
    assert(bytes[1] == text[1] as u8);
    assert(bytes[2] == text[2] as u8);
    assert(bytes[3] == text[3] as u8);
    assert(bytes =~= quit_bytes());
    vstd::utf8::encode_utf8_valid_utf8(text);
    encode_utf8_decode_utf8(text);
}

/// The start of every reply is encoded byte for byte.
pub proof fn lemma_hello_encoding()
    ensures
        encode_utf8(hello_text()) == hello_bytes(),
{
    let text = hello_text();
    assert(is_ascii_chars(text));
    is_ascii_chars_encode_utf8(text);
    let bytes = encode_utf8(text);
    assert(bytes.len() == 6);
    assert(bytes[0] == text[0] as u8);
    assert(bytes[1] == text[1] as u8);
    assert(bytes[2] == text[2] as u8);
    assert(bytes[3] == text[3] as u8);
    assert(bytes[4] == text[4] as u8);
    assert(bytes[5] == text[5] as u8);
    assert(bytes =~= hello_bytes());
}

/// Text joined and then encoded is text encoded and then joined.
pub proof fn lemma_encode_concat(front: Seq<char>, back: Seq<char>)
    ensures
        encode_utf8(front + back) == encode_utf8(front) + encode_utf8(back),
    decreases front.len(),
{
    if front.len() == 0 {
        assert(front + back =~= back);
        assert(encode_utf8(front) + encode_utf8(back) =~= encode_utf8(back));
    } else {
        let joined = front + back;
        assert(joined[0] == front[0]);
        assert(joined.drop_first() =~= front.drop_first() + back);
        lemma_encode_concat(front.drop_first(), back);
        assert(encode_utf8(joined) =~= encode_utf8(front) + encode_utf8(back));
    }
}

/// Reads `bytes` as text with `String::from_utf8_lossy`. The result is a
/// function of the bytes alone. Bytes that are valid UTF-8 give the text
/// that they encode; of other bytes the contract gives the result a name
/// and says no more.
#[verifier::external_body]
pub(crate) fn decode_lossy(bytes: &[u8]) -> (text: String)
    ensures
        text@ == lossy_text(bytes@),
        valid_utf8(bytes@) ==> text@ == decode_utf8(bytes@),
{
    String::from_utf8_lossy(bytes).into_owned()
}

/// Whether `text` is the sentinel.
pub fn is_quit(text: &str) -> (quit: bool)
    ensures
        quit == (text@ == quit_text()),
{
    let sentinel = String::from_str("quit");
    proof {
        reveal_strlit("quit");
        assert("quit"@ =~= quit_text());
    }
    text.to_owned() == sentinel
}

/// The UTF-8 bytes of `text`.
pub fn text_bytes(text: &str) -> (bytes: Vec<u8>)
    ensures
        bytes@ == encode_utf8(text@),
{
    vstd::slice::slice_to_vec(text.as_bytes())
}

/// The greeting that answers `text`: the word `Hello`, a space, then the
/// text itself.
pub fn greeting(text: &str) -> (reply: String)
    ensures
        reply@ == hello_text() + text@,
{
    let mut reply = String::from_str("Hello ");
    proof {
        reveal_strlit("Hello ");
        assert("Hello "@ =~= hello_text());
    }
    reply.append(text);
    reply
}

/// The decimal digits of `n`.
pub fn decimal_bytes(n: u32) -> (digits: Vec<u8>)
    ensures
        digits@ == decimal(n as nat),
{
    let mut digits: Vec<u8> = Vec::new();
    let mut rest: u32 = n;
    while rest >= 10
        invariant
            decimal(rest as nat) + digits@ == decimal(n as nat),
        decreases rest,
    {
        let ghost before = digits@;
        let digit: u8 = (48 + rest % 10) as u8;
        digits.insert(0, digit);
        proof {
            let next = (rest / 10) as nat;
            assert(decimal(rest as nat) == decimal(next) + seq![digit]);
            assert(digits@ =~= seq![digit] + before);
            assert(decimal(next) + digits@ =~= decimal(rest as nat) + before);
        }
        rest = rest / 10;
    }
    let ghost before = digits@;
    digits.insert(0, (48 + rest) as u8);
    proof {
        assert(digits@ =~= decimal(rest as nat) + before);
    }
    digits
}

} // verus!
