//! The two payload shapes that travel on the wire.
//!
//! A request and a response share their representation, a plain byte
//! buffer, but are distinct types: neither can stand in for the other.

use vstd::prelude::*;

verus! {

/// The largest payload, in bytes, that a single frame may carry.
pub const MAX_PAYLOAD: usize = 1024;

/// Whether two byte vectors hold the same bytes.
pub fn same_bytes(a: &Vec<u8>, b: &Vec<u8>) -> (same: bool)
    ensures
        same == (a@ == b@),
{
    if a.len() != b.len() {
        return false;
    }
    let mut i: usize = 0;
    while i < a.len()
        invariant
            i <= a.len(),
            a.len() == b.len(),
            forall|j: int| 0 <= j < i ==> a@[j] == b@[j],
        decreases a.len() - i,
    {
        if a[i] != b[i] {
            return false;
        }
        i += 1;
    }
    assert(a@ =~= b@);
    true
}

/// A request payload: opaque bytes sent by the requester.
#[derive(Debug)]
pub struct Req(pub Vec<u8>);

/// A response payload: opaque bytes sent back by the responder.
#[derive(Debug)]
pub struct Resp(pub Vec<u8>);

impl View for Req {
    type V = Seq<u8>;

    open spec fn view(&self) -> Seq<u8> {
        self.0@
    }
}

impl Clone for Req {
    fn clone(&self) -> (copy: Self)
        ensures
            copy@ == self@,
    {
        Req(self.0.clone())
    }
}

impl PartialEq for Req {
    fn eq(&self, other: &Self) -> (same: bool) {
        same_bytes(&self.0, &other.0)
    }
}

impl Eq for Req {

}

impl vstd::std_specs::cmp::PartialEqSpecImpl for Req {
    open spec fn obeys_eq_spec() -> bool {
        true
    }

    open spec fn eq_spec(&self, other: &Self) -> bool {
        self@ == other@
    }
}

impl View for Resp {
    type V = Seq<u8>;

    open spec fn view(&self) -> Seq<u8> {
        self.0@
    }
}

impl Clone for Resp {
    fn clone(&self) -> (copy: Self)
        ensures
            copy@ == self@,
    {
        Resp(self.0.clone())
    }
}

impl PartialEq for Resp {
    fn eq(&self, other: &Self) -> (same: bool) {
        same_bytes(&self.0, &other.0)
    }
}

impl Eq for Resp {

}

impl vstd::std_specs::cmp::PartialEqSpecImpl for Resp {
    open spec fn obeys_eq_spec() -> bool {
        true
    }

    open spec fn eq_spec(&self, other: &Self) -> bool {
        self@ == other@
    }
}

} // verus!
