use vstd::prelude::*;

use super::Env;
use crate::primitives::Address;
use crate::store::Store;

verus! {

/// The registry's storage: the consumed `(signer, nonce)` pairs and each
/// signer's next suggested nonce.
pub struct Storage {
    pub consumed: Store<(Address, u64), ()>,
    pub next_nonce: Store<Address, u64>,
}

/// The next suggested nonce of `signer`; 0 if none was recorded.
pub open spec fn next_of(s: &Storage, signer: Seq<char>) -> u64 {
    if s.next_nonce@.contains_key(signer) {
        s.next_nonce@[signer]
    } else {
        0
    }
}

/// `n + 1`, saturating at `u64::MAX`.
pub open spec fn successor(n: u64) -> u64 {
    if n == u64::MAX {
        u64::MAX
    } else {
        (n + 1) as u64
    }
}

impl Storage {
    /// The storage invariant: every consumed nonce lies below its signer's
    /// next suggested nonce (which saturates at `u64::MAX`).
    pub open spec fn inv(&self) -> bool {
        &&& self.consumed.wf()
        &&& self.next_nonce.wf()
        &&& forall|k: (Seq<char>, u64)| #[trigger]
            self.consumed@.contains_key(k) ==> next_of(self, k.0) >= successor(k.1)
    }

    /// Empty storage.
    pub fn new() -> (r: Storage)
        ensures
            r.inv(),
            r.consumed@ == Map::<(Seq<char>, u64), ()>::empty(),
            r.next_nonce@ == Map::<Seq<char>, u64>::empty(),
    {
        Storage { consumed: Store::new(), next_nonce: Store::new() }
    }
}

/// Whether `(signer, nonce)` has been consumed.
pub fn is_nonce_consumed(env: &Env, signer: &Address, nonce: u64) -> (r: bool)
    requires
        env.storage.consumed.wf(),
    ensures
        r == env.storage.consumed@.contains_key((signer@, nonce)),
{
    env.storage.consumed.contains_key(&(signer.clone(), nonce))
}

/// Marks `(signer, nonce)` as consumed.
pub fn mark_nonce_consumed(env: &mut Env, signer: &Address, nonce: u64)
    requires
        old(env).storage.consumed.wf(),
    ensures
        final(env).storage.consumed.wf(),
        final(env).storage.consumed@ == old(env).storage.consumed@.insert((signer@, nonce), ()),
        final(env).storage.next_nonce == old(env).storage.next_nonce,
        final(env).events@ == old(env).events@,
        final(env).auths@ == old(env).auths@,
        final(env).ledger_sequence == old(env).ledger_sequence,
{
    env.storage.consumed.insert((signer.clone(), nonce), ());
}

/// The next suggested nonce of `signer` (0 if it never consumed one).
pub fn get_next_nonce(env: &Env, signer: &Address) -> (r: u64)
    requires
        env.storage.next_nonce.wf(),
    ensures
        r == next_of(&env.storage, signer@),
{
    match env.storage.next_nonce.get(signer) {
        Some(n) => *n,
        None => 0,
    }
}

/// Advances `signer`'s next suggested nonce past `consumed_nonce`; nothing
/// changes if it is already beyond it.
pub fn advance_next_nonce(env: &mut Env, signer: &Address, consumed_nonce: u64)
    requires
        old(env).storage.next_nonce.wf(),
    ensures
        final(env).storage.next_nonce.wf(),
        final(env).storage.next_nonce@ == (if successor(consumed_nonce) > next_of(
            &old(env).storage,
            signer@,
        ) {
            old(env).storage.next_nonce@.insert(signer@, successor(consumed_nonce))
        } else {
            old(env).storage.next_nonce@
        }),
        final(env).storage.consumed == old(env).storage.consumed,
        final(env).events@ == old(env).events@,
        final(env).auths@ == old(env).auths@,
        final(env).ledger_sequence == old(env).ledger_sequence,
{
    let current = get_next_nonce(env, signer);
    let new_next = consumed_nonce.saturating_add(1);
    if new_next > current {
        env.storage.next_nonce.insert(signer.clone(), new_next);
    }
}

} // verus!
