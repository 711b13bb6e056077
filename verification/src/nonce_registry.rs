pub mod errors;
pub mod storage;

use vstd::prelude::*;

use crate::primitives::Address;
pub use errors::Error;
pub use storage::{next_of, successor, Storage};

verus! {

/// The ledger environment of a nonce registry, which publishes no events.
pub type Env = crate::env::Env<Storage, ()>;

/// A shared replay-protection primitive: each `(signer, nonce)` pair can be
/// consumed once.
pub struct NonceRegistry;

/// Consuming a pair leaves every consumed pair consumed, so a pair once
/// consumed is refused by every later `consume`; and no signer's next
/// suggested nonce ever goes down.
pub proof fn lemma_consume_is_permanent(
    pre: Storage,
    post: Storage,
    signer: Seq<char>,
    nonce: u64,
    key: (Seq<char>, u64),
    who: Seq<char>,
)
    requires
        post.consumed@ == pre.consumed@.insert((signer, nonce), ()),
        next_of(&post, signer) == (if successor(nonce) > next_of(&pre, signer) {
            successor(nonce)
        } else {
            next_of(&pre, signer)
        }),
        forall|other: Seq<char>| other != signer ==> next_of(&post, other) == next_of(&pre, other),
    ensures
        post.consumed@.contains_key((signer, nonce)),
        pre.consumed@.contains_key(key) ==> post.consumed@.contains_key(key),
        next_of(&post, who) >= next_of(&pre, who),
{
}

impl NonceRegistry {
    /// Consumes `(signer, nonce)`: succeeds exactly once per pair, and moves
    /// the signer's next suggested nonce past `nonce`. No authorization is
    /// demanded; the caller verifies the signer's signature.
    pub fn consume(env: &mut Env, signer: Address, nonce: u64) -> (r: Result<(), Error>)
        requires
            old(env).storage.inv(),
        ensures
            final(env).storage.inv(),
            old(env).storage.consumed@.contains_key((signer@, nonce)) <==> r == Err::<(), Error>(
                Error::NonceAlreadyConsumed,
            ),
            r is Ok <==> !old(env).storage.consumed@.contains_key((signer@, nonce)),
            r is Err ==> *final(env) == *old(env),
            r is Ok ==> {
                &&& final(env).storage.consumed@ == old(env).storage.consumed@.insert(
                    (signer@, nonce),
                    (),
                )
                &&& next_of(&final(env).storage, signer@) == (if successor(nonce) > next_of(
                    &old(env).storage,
                    signer@,
                ) {
                    successor(nonce)
                } else {
                    next_of(&old(env).storage, signer@)
                })
                &&& forall|other: Seq<char>|
                    other != signer@ ==> next_of(&final(env).storage, other) == next_of(
                        &old(env).storage,
                        other,
                    )
                &&& final(env).events@ == old(env).events@
                &&& final(env).auths@ == old(env).auths@
                &&& final(env).ledger_sequence == old(env).ledger_sequence
            },
    {
        if storage::is_nonce_consumed(env, &signer, nonce) {
            return Err(Error::NonceAlreadyConsumed);
        }
        let ghost s0 = env.storage;
        storage::mark_nonce_consumed(env, &signer, nonce);
        storage::advance_next_nonce(env, &signer, nonce);
        proof {
            let s = env.storage;
            assert forall|k: (Seq<char>, u64)| #[trigger]
                s.consumed@.contains_key(k) implies next_of(&s, k.0) >= successor(k.1) by {
                if k != (signer@, nonce) {
                    assert(s0.consumed@.contains_key(k));
                }
            }
        }
        Ok(())
    }

    /// Whether `(signer, nonce)` has been consumed.
    pub fn is_consumed(env: &Env, signer: Address, nonce: u64) -> (r: bool)
        requires
            env.storage.inv(),
        ensures
            r == env.storage.consumed@.contains_key((signer@, nonce)),
    {
        storage::is_nonce_consumed(env, &signer, nonce)
    }

    /// The next suggested nonce for `signer`: 0 at first, and above every
    /// nonce the signer consumed (saturating at `u64::MAX`).
    pub fn next_nonce(env: &Env, signer: Address) -> (r: u64)
        requires
            env.storage.inv(),
        ensures
            r == next_of(&env.storage, signer@),
            forall|n: u64|
                env.storage.consumed@.contains_key((signer@, n)) ==> r >= successor(n),
    {
        proof {
            assert forall|n: u64|
                env.storage.consumed@.contains_key((signer@, n)) implies next_of(
                &env.storage,
                signer@,
            ) >= successor(n) by {
                let k = (signer@, n);
                assert(env.storage.consumed@.contains_key(k));
            }
        }
        storage::get_next_nonce(env, &signer)
    }
}

} // verus!
