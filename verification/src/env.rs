use vstd::prelude::*;

use crate::primitives::Address;

verus! {

/// What one contract sees of the ledger: its own storage, the events it has
/// published, the addresses whose authorization it has demanded, and the
/// current ledger sequence number.
///
/// The host that runs a contract enforces each demanded authorization and
/// publishes each event; here both are recorded in order so that the
/// contract's logic can be stated over them.
pub struct Env<S, E> {
    pub storage: S,
    pub events: Vec<E>,
    pub auths: Vec<Address>,
    pub ledger_sequence: u32,
}

impl<S, E> Env<S, E> {
    /// `self` is `pre` with `e` published and nothing else changed.
    pub open spec fn publishes(self, pre: Self, e: E) -> bool {
        &&& self.events@ == pre.events@.push(e)
        &&& self.storage == pre.storage
        &&& self.auths@ == pre.auths@
        &&& self.ledger_sequence == pre.ledger_sequence
    }

    /// `self` is `pre` with the authorization of `who` demanded and nothing else changed.
    pub open spec fn demands_auth(self, pre: Self, who: Address) -> bool {
        &&& self.auths@ == pre.auths@.push(who)
        &&& self.storage == pre.storage
        &&& self.events@ == pre.events@
        &&& self.ledger_sequence == pre.ledger_sequence
    }

    /// A fresh environment at ledger sequence 0 over the given storage.
    pub fn with_storage(storage: S) -> (r: Self)
        ensures
            r.storage == storage,
            r.events@ == Seq::<E>::empty(),
            r.auths@ == Seq::<Address>::empty(),
            r.ledger_sequence == 0,
    {
        Env { storage, events: Vec::new(), auths: Vec::new(), ledger_sequence: 0 }
    }

    /// Demands that `who` has authorized the current invocation.
    pub fn require_auth(&mut self, who: &Address)
        ensures
            final(self).demands_auth(*old(self), *who),
    {
        self.auths.push(who.clone());
    }

    /// Publishes an event.
    pub fn publish(&mut self, event: E)
        ensures
            final(self).publishes(*old(self), event),
    {
        self.events.push(event);
    }

    /// The current ledger sequence number.
    pub fn sequence(&self) -> (r: u32)
        ensures
            r == self.ledger_sequence,
    {
        self.ledger_sequence
    }

    /// Moves the ledger to sequence number `n`.
    pub fn set_sequence_number(&mut self, n: u32)
        ensures
            final(self).ledger_sequence == n,
            final(self).storage == old(self).storage,
            final(self).events@ == old(self).events@,
            final(self).auths@ == old(self).auths@,
    {
        self.ledger_sequence = n;
    }
}

} // verus!
