//! Unsigned variable-length integers, the encoding of a frame's length.
//!
//! A number is written seven bits at a time, least significant group first.
//! Every byte but the last has its high bit set. The encoding is minimal: no
//! number has two encodings.

use vstd::prelude::*;

verus! {

/// The bytes that encode `n`.
pub open spec fn varint(n: nat) -> Seq<u8>
    decreases n,
{
    if n < 128 {
        seq![n as u8]
    } else {
        seq![(n % 128 + 128) as u8] + varint(n / 128)
    }
}

/// A number from 128 up to 16383 takes exactly two bytes.
pub proof fn lemma_varint_two_bytes(n: nat)
    requires
        128 <= n < 16384,
    ensures
        varint(n) == seq![(n % 128 + 128) as u8, (n / 128) as u8],
        1 <= n / 128 < 128,
{
    assert(n / 128 < 128);
    assert(varint(n / 128) == seq![(n / 128) as u8]);
    assert(varint(n) =~= seq![(n % 128 + 128) as u8, (n / 128) as u8]);
}

/// A number from 16384 on takes at least three bytes, and its first two
/// have the high bit set.
pub proof fn lemma_varint_long(n: nat)
    requires
        n >= 16384,
    ensures
        varint(n).len() >= 3,
        varint(n)[0] >= 128,
        varint(n)[1] >= 128,
{
    let m = n / 128;
    assert(m >= 128);
    let tail = varint(m);
    assert(tail == seq![(m % 128 + 128) as u8] + varint(m / 128));
    assert(varint(m / 128).len() >= 1) by {
        lemma_varint_len(m / 128);
    }
    assert(varint(n) == seq![(n % 128 + 128) as u8] + tail);
    assert(varint(n)[1] == tail[0]);
}

/// Every encoding has at least one byte.
pub proof fn lemma_varint_len(n: nat)
    ensures
        varint(n).len() >= 1,
    decreases n,
{
    if n >= 128 {
        lemma_varint_len(n / 128);
    }
}

/// Appends the encoding of `n` to `out`.
pub fn push_varint(out: &mut Vec<u8>, n: u64)
    ensures
        final(out)@ == old(out)@ + varint(n as nat),
{
    let mut rest: u64 = n;
    while rest >= 128
        invariant
            out@ + varint(rest as nat) == old(out)@ + varint(n as nat),
        decreases rest,
    {
        let ghost before = out@;
        let low: u8 = (rest % 128 + 128) as u8;
        out.push(low);
        proof {
            let next = (rest / 128) as nat;
            assert(varint(rest as nat) == seq![low] + varint(next));
            assert(out@ + varint(next) =~= before + varint(rest as nat));
        }
        rest = rest / 128;
    }
    let ghost before = out@;
    out.push(rest as u8);
    proof {
        assert(out@ =~= before + varint(rest as nat));
    }
}

} // verus!
