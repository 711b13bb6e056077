use vstd::prelude::*;

use super::Env;
use crate::primitives::{Address, Symbol};
use crate::store::Store;

verus! {

/// A compliance attestation for one address.
#[derive(Debug, PartialEq, Eq)]
pub struct Attestation {
    /// A short status symbol, such as `CLEAR` or `BLOCKED`.
    pub status: Symbol,
    /// The last ledger at which the attestation is still valid.
    pub expiry_ledger: u32,
}

impl Clone for Attestation {
    fn clone(&self) -> (r: Self)
        ensures
            r == *self,
    {
        Attestation { status: self.status.clone(), expiry_ledger: self.expiry_ledger }
    }
}

/// The oracle's storage: the admin, the attestor, and the attestation of
/// each attested address.
pub struct Storage {
    pub admin: Option<Address>,
    pub attestor: Option<Address>,
    pub attestations: Store<Address, Attestation>,
}

impl Storage {
    /// The storage invariant: admin and attestor are set together.
    pub open spec fn inv(&self) -> bool {
        &&& self.attestations.wf()
        &&& (self.admin is Some <==> self.attestor is Some)
    }

    /// Empty storage, as before `initialize`.
    pub fn new() -> (r: Storage)
        ensures
            r.inv(),
            r.admin is None,
            r.attestor is None,
            r.attestations@ == Map::<Seq<char>, Attestation>::empty(),
    {
        Storage { admin: None, attestor: None, attestations: Store::new() }
    }
}

pub fn set_admin(env: &mut Env, admin: &Address)
    ensures
        final(env).storage.admin == Some(*admin),
        final(env).storage.attestor == old(env).storage.attestor,
        final(env).storage.attestations == old(env).storage.attestations,
        final(env).events@ == old(env).events@,
        final(env).auths@ == old(env).auths@,
        final(env).ledger_sequence == old(env).ledger_sequence,
{
    env.storage.admin = Some(admin.clone());
}

pub fn get_admin(env: &Env) -> (r: Option<Address>)
    ensures
        r == env.storage.admin,
{
    match &env.storage.admin {
        Some(a) => Some(a.clone()),
        None => None,
    }
}

pub fn has_admin(env: &Env) -> (r: bool)
    ensures
        r == env.storage.admin is Some,
{
    env.storage.admin.is_some()
}

pub fn set_attestor(env: &mut Env, attestor: &Address)
    ensures
        final(env).storage.attestor == Some(*attestor),
        final(env).storage.admin == old(env).storage.admin,
        final(env).storage.attestations == old(env).storage.attestations,
        final(env).events@ == old(env).events@,
        final(env).auths@ == old(env).auths@,
        final(env).ledger_sequence == old(env).ledger_sequence,
{
    env.storage.attestor = Some(attestor.clone());
}

pub fn get_attestor(env: &Env) -> (r: Option<Address>)
    ensures
        r == env.storage.attestor,
{
    match &env.storage.attestor {
        Some(a) => Some(a.clone()),
        None => None,
    }
}

pub fn set_attestation(env: &mut Env, address: &Address, attestation: &Attestation)
    requires
        old(env).storage.attestations.wf(),
    ensures
        final(env).storage.attestations.wf(),
        final(env).storage.attestations@ == old(env).storage.attestations@.insert(
            address@,
            *attestation,
        ),
        final(env).storage.admin == old(env).storage.admin,
        final(env).storage.attestor == old(env).storage.attestor,
        final(env).events@ == old(env).events@,
        final(env).auths@ == old(env).auths@,
        final(env).ledger_sequence == old(env).ledger_sequence,
{
    env.storage.attestations.insert(address.clone(), attestation.clone());
}

pub fn get_attestation(env: &Env, address: &Address) -> (r: Option<Attestation>)
    requires
        env.storage.attestations.wf(),
    ensures
        r == (if env.storage.attestations@.contains_key(address@) {
            Some(env.storage.attestations@[address@])
        } else {
            None
        }),
{
    match env.storage.attestations.get(address) {
        Some(a) => Some(a.clone()),
        None => None,
    }
}

} // verus!
