pub mod errors;
pub mod events;
pub mod storage;

use vstd::prelude::*;

use crate::primitives::{Address, Symbol};
pub use errors::Error;
pub use events::{Attested, AttestorUpdated, Event, OracleInitialized};
pub use storage::{Attestation, Storage};

verus! {

/// The ledger environment of a compliance oracle.
pub type Env = crate::env::Env<Storage, Event>;

/// Stores compliance attestations written by an authorized attestor and
/// answers status lookups; stale attestations count as absent.
pub struct ComplianceOracle;

/// The status of `address` at ledger `ledger`: its attestation, unless there
/// is none or it expired before `ledger`.
pub open spec fn current_status(s: &Storage, address: Seq<char>, ledger: u32) -> Option<(Symbol, u32)> {
    if s.attestations@.contains_key(address) && ledger <= s.attestations@[address].expiry_ledger {
        Some((s.attestations@[address].status, s.attestations@[address].expiry_ledger))
    } else {
        None
    }
}

/// After an attestation of `status` until `expiry_ledger` is written, the
/// lookup of that address gives it back at every ledger up to and including
/// `expiry_ledger`, and nothing at every later ledger.
pub proof fn lemma_attestation_valid_until_expiry(
    pre: Storage,
    post: Storage,
    address: Seq<char>,
    status: Symbol,
    expiry_ledger: u32,
    ledger: u32,
)
    requires
        post.attestations@ == pre.attestations@.insert(
            address,
            Attestation { status, expiry_ledger },
        ),
    ensures
        ledger <= expiry_ledger ==> current_status(&post, address, ledger) == Some(
            (status, expiry_ledger),
        ),
        ledger > expiry_ledger ==> current_status(&post, address, ledger) is None,
{
}

impl ComplianceOracle {
    /// Sets the admin (who may rotate the attestor) and the attestor (who
    /// may attest). Can only be called once.
    pub fn initialize(env: &mut Env, admin: Address, attestor: Address) -> (r: Result<(), Error>)
        requires
            old(env).storage.inv(),
        ensures
            final(env).storage.inv(),
            old(env).storage.admin is Some <==> r == Err::<(), Error>(Error::AlreadyInitialized),
            r is Ok <==> old(env).storage.admin is None,
            r is Err ==> *final(env) == *old(env),
            r is Ok ==> {
                &&& final(env).storage.admin == Some(admin)
                &&& final(env).storage.attestor == Some(attestor)
                &&& final(env).storage.attestations == old(env).storage.attestations
                &&& final(env).auths@ == old(env).auths@.push(admin)
                &&& final(env).events@ == old(env).events@.push(
                    Event::Initialized(OracleInitialized { admin, attestor }),
                )
                &&& final(env).ledger_sequence == old(env).ledger_sequence
            },
    {
        if storage::has_admin(env) {
            return Err(Error::AlreadyInitialized);
        }
        env.require_auth(&admin);
        storage::set_admin(env, &admin);
        storage::set_attestor(env, &attestor);
        events::emit_initialized(env, admin, attestor);
        Ok(())
    }

    /// Writes (or overwrites) the attestation of `address`. Only the attestor
    /// may call this, and the expiry must be after the current ledger; the
    /// attestor's authorization is demanded before the expiry is checked.
    pub fn attest(
        env: &mut Env,
        attestor: Address,
        address: Address,
        status: Symbol,
        expiry_ledger: u32,
    ) -> (r: Result<(), Error>)
        requires
            old(env).storage.inv(),
        ensures
            final(env).storage.inv(),
            old(env).storage.attestor is None ==> r == Err::<(), Error>(Error::NotInitialized),
            old(env).storage.attestor matches Some(a) && a@ != attestor@ ==> r == Err::<(), Error>(
                Error::Unauthorized,
            ),
            old(env).storage.attestor matches Some(a) && a@ == attestor@ && expiry_ledger
                <= old(env).ledger_sequence ==> r == Err::<(), Error>(Error::InvalidExpiry),
            r is Ok <==> (old(env).storage.attestor matches Some(a) && a@ == attestor@
                && expiry_ledger > old(env).ledger_sequence),
            r is Err && r != Err::<(), Error>(Error::InvalidExpiry) ==> *final(env) == *old(env),
            r == Err::<(), Error>(Error::InvalidExpiry) ==> final(env).demands_auth(
                *old(env),
                attestor,
            ),
            r is Ok ==> {
                &&& final(env).storage.attestations@ == old(env).storage.attestations@.insert(
                    address@,
                    Attestation { status, expiry_ledger },
                )
                &&& final(env).storage.admin == old(env).storage.admin
                &&& final(env).storage.attestor == old(env).storage.attestor
                &&& final(env).auths@ == old(env).auths@.push(attestor)
                &&& final(env).events@ == old(env).events@.push(
                    Event::Attested(Attested { attestor, address, status, expiry_ledger }),
                )
                &&& final(env).ledger_sequence == old(env).ledger_sequence
            },
    {
        let stored_attestor = match storage::get_attestor(env) {
            Some(a) => a,
            None => return Err(Error::NotInitialized),
        };
        if !attestor.same_as(&stored_attestor) {
            return Err(Error::Unauthorized);
        }
        env.require_auth(&attestor);
        if expiry_ledger <= env.sequence() {
            return Err(Error::InvalidExpiry);
        }
        let attestation = Attestation { status: status.clone(), expiry_ledger };
        storage::set_attestation(env, &address, &attestation);
        events::emit_attested(env, attestor, address, status, expiry_ledger);
        Ok(())
    }

    /// The status and expiry of the attestation of `address`, or `None` if
    /// there is none or the current ledger is past its expiry.
    pub fn status(env: &Env, address: Address) -> (r: Option<(Symbol, u32)>)
        requires
            env.storage.inv(),
        ensures
            r == current_status(&env.storage, address@, env.ledger_sequence),
    {
        let attestation = match storage::get_attestation(env, &address) {
            Some(a) => a,
            None => return None,
        };
        if env.sequence() > attestation.expiry_ledger {
            return None;
        }
        Some((attestation.status, attestation.expiry_ledger))
    }

    /// Replaces the attestor. Only the admin may call this.
    pub fn set_attestor(env: &mut Env, admin: Address, new_attestor: Address) -> (r: Result<
        (),
        Error,
    >)
        requires
            old(env).storage.inv(),
        ensures
            final(env).storage.inv(),
            old(env).storage.admin is None ==> r == Err::<(), Error>(Error::NotInitialized),
            old(env).storage.admin matches Some(a) && a@ != admin@ ==> r == Err::<(), Error>(
                Error::Unauthorized,
            ),
            r is Ok <==> (old(env).storage.admin matches Some(a) && a@ == admin@),
            r is Err ==> *final(env) == *old(env),
            r is Ok ==> {
                &&& final(env).storage.attestor == Some(new_attestor)
                &&& final(env).storage.admin == old(env).storage.admin
                &&& final(env).storage.attestations == old(env).storage.attestations
                &&& final(env).auths@ == old(env).auths@.push(admin)
                &&& final(env).events@ == old(env).events@.push(
                    Event::AttestorUpdated(
                        AttestorUpdated {
                            admin,
                            old_attestor: old(env).storage.attestor->Some_0,
                            new_attestor,
                        },
                    ),
                )
                &&& final(env).ledger_sequence == old(env).ledger_sequence
            },
    {
        let stored_admin = match storage::get_admin(env) {
            Some(a) => a,
            None => return Err(Error::NotInitialized),
        };
        if !admin.same_as(&stored_admin) {
            return Err(Error::Unauthorized);
        }
        let old_attestor = match storage::get_attestor(env) {
            Some(a) => a,
            None => return Err(Error::NotInitialized),
        };
        env.require_auth(&admin);
        storage::set_attestor(env, &new_attestor);
        events::emit_attestor_updated(env, admin, old_attestor, new_attestor);
        Ok(())
    }
}

} // verus!
