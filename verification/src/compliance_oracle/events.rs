use vstd::prelude::*;

use super::Env;
use crate::primitives::{Address, Symbol};

verus! {

/// Published on initialization.
#[derive(Clone, Debug, PartialEq, Eq)]
pub struct OracleInitialized {
    pub admin: Address,
    pub attestor: Address,
}

/// Published when an attestation is written or overwritten.
#[derive(Clone, Debug, PartialEq, Eq)]
pub struct Attested {
    pub attestor: Address,
    pub address: Address,
    pub status: Symbol,
    pub expiry_ledger: u32,
}

/// Published when the attestor is rotated.
#[derive(Clone, Debug, PartialEq, Eq)]
pub struct AttestorUpdated {
    pub admin: Address,
    pub old_attestor: Address,
    pub new_attestor: Address,
}

/// The events of the compliance oracle, one variant per topic.
#[derive(Clone, Debug, PartialEq, Eq)]
pub enum Event {
    /// Topic `init`.
    Initialized(OracleInitialized),
    /// Topic `attested`.
    Attested(Attested),
    /// Topic `atst_upd`.
    AttestorUpdated(AttestorUpdated),
}

pub fn emit_initialized(env: &mut Env, admin: Address, attestor: Address)
    ensures
        final(env).publishes(*old(env), Event::Initialized(OracleInitialized { admin, attestor })),
{
    env.publish(Event::Initialized(OracleInitialized { admin, attestor }));
}

pub fn emit_attested(
    env: &mut Env,
    attestor: Address,
    address: Address,
    status: Symbol,
    expiry_ledger: u32,
)
    ensures
        final(env).publishes(
            *old(env),
            Event::Attested(Attested { attestor, address, status, expiry_ledger }),
        ),
{
    env.publish(Event::Attested(Attested { attestor, address, status, expiry_ledger }));
}

pub fn emit_attestor_updated(
    env: &mut Env,
    admin: Address,
    old_attestor: Address,
    new_attestor: Address,
)
    ensures
        final(env).publishes(
            *old(env),
            Event::AttestorUpdated(AttestorUpdated { admin, old_attestor, new_attestor }),
        ),
{
    env.publish(Event::AttestorUpdated(AttestorUpdated { admin, old_attestor, new_attestor }));
}

} // verus!
