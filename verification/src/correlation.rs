//! Request correlation: which request a response answers.
//!
//! Every outbound request gets an identifier from a counter that only goes
//! up. An identifier is outstanding from the moment it is registered until
//! its response is resolved; nothing expires on its own.

use vstd::prelude::*;

verus! {

/// The identifier that a session hands out after `earlier` others. The
/// first is 1. A counter that has handed out every identifier hands out no
/// more: identifiers are never reused.
pub open spec fn id_of(earlier: nat) -> Option<u64> {
    if earlier < u64::MAX {
        Some((earlier + 1) as u64)
    } else {
        None
    }
}

/// Whether `at` is the first place in `pending` that holds `id`.
pub open spec fn is_first_match<T>(pending: Seq<(u64, T)>, id: u64, at: int) -> bool {
    &&& 0 <= at < pending.len()
    &&& pending[at].0 == id
    &&& forall|j: int| 0 <= j < at ==> (#[trigger] pending[j]).0 != id
}

/// Whether `id` is outstanding in `pending`.
pub open spec fn is_pending<T>(pending: Seq<(u64, T)>, id: u64) -> bool {
    exists|at: int| 0 <= at < pending.len() && (#[trigger] pending[at]).0 == id
}

/// Of two identifiers that one session hands out, the later is the greater.
pub proof fn law_ids_increase(earlier: nat, later: nat)
    requires
        earlier < later,
        id_of(later) is Some,
    ensures
        id_of(earlier) is Some,
        id_of(earlier)->0 < id_of(later)->0,
{
}

/// The correlation layer of one session. `T` is what the session wants to
/// remember of a request until its response arrives.
pub struct Correlation<T> {
    issued: u64,
    pending: Vec<(u64, T)>,
}

impl<T> Correlation<T> {
    /// How many identifiers the session has handed out.
    pub closed spec fn issued(&self) -> nat {
        self.issued as nat
    }

    /// The outstanding identifiers, oldest registration first, each with
    /// what was remembered of its request.
    pub closed spec fn pending(&self) -> Seq<(u64, T)> {
        self.pending@
    }

    /// A layer that has handed out no identifier and awaits no response.
    pub fn new() -> (layer: Self)
        ensures
            layer.issued() == 0,
            layer.pending() == Seq::<(u64, T)>::empty(),
    {
        Correlation { issued: 0, pending: Vec::new() }
    }

    /// How many identifiers the session has handed out.
    pub fn count_issued(&self) -> (n: u64)
        ensures
            n == self.issued(),
    {
        self.issued
    }

    /// How many identifiers are outstanding.
    pub fn count_pending(&self) -> (n: usize)
        ensures
            n == self.pending().len(),
    {
        self.pending.len()
    }

    /// Hands out the next identifier, greater than every one before it, or
    /// nothing once the counter is used up.
    pub fn next_id(&mut self) -> (id: Option<u64>)
        ensures
            id == id_of(old(self).issued()),
            id is Some ==> final(self).issued() == old(self).issued() + 1,
            id is None ==> final(self).issued() == old(self).issued(),
            final(self).pending() == old(self).pending(),
    {
        if self.issued == u64::MAX {
            None
        } else {
            self.issued = self.issued + 1;
            Some(self.issued)
        }
    }

    /// Records that `id` is outstanding, and `context` with it.
    pub fn register(&mut self, id: u64, context: T)
        ensures
            final(self).pending() == old(self).pending().push((id, context)),
            final(self).issued() == old(self).issued(),
    {
        self.pending.push((id, context));
    }

    /// Whether `id` is outstanding.
    pub fn is_outstanding(&self, id: u64) -> (found: bool)
        ensures
            found == is_pending(self.pending(), id),
    {
        let mut at: usize = 0;
        while at < self.pending.len()
            invariant
                at <= self.pending@.len(),
                forall|j: int| 0 <= j < at ==> (#[trigger] self.pending@[j]).0 != id,
            decreases self.pending@.len() - at,
        {
            if self.pending[at].0 == id {
                return true;
            }
            at += 1;
        }
        false
    }

    /// Takes the response to `id`: the oldest registration of `id` stops
    /// being outstanding, and what was remembered with it comes back. If
    /// `id` is not outstanding, nothing changes and nothing comes back.
    pub fn resolve(&mut self, id: u64) -> (context: Option<T>)
        ensures
            final(self).issued() == old(self).issued(),
            match context {
                Some(found) => exists|at: int|
                    {
                        &&& #[trigger] is_first_match(old(self).pending(), id, at)
                        &&& found == old(self).pending()[at].1
                        &&& final(self).pending() == old(self).pending().remove(at)
                    },
                None => {
                    &&& !is_pending(old(self).pending(), id)
                    &&& final(self).pending() == old(self).pending()
                },
            },
    {
        let mut at: usize = 0;
        while at < self.pending.len()
            invariant
                at <= self.pending@.len(),
                self.pending@ == old(self).pending@,
                self.issued == old(self).issued,
                forall|j: int| 0 <= j < at ==> (#[trigger] self.pending@[j]).0 != id,
            decreases self.pending@.len() - at,
        {
            if self.pending[at].0 == id {
                let (_, found) = self.pending.remove(at);
                assert(is_first_match(old(self).pending(), id, at as int));
                return Some(found);
            }
            at += 1;
        }
        None
    }
}

} // verus!
