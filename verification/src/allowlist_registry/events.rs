use vstd::prelude::*;

use super::Env;
use crate::primitives::{Address, Symbol};

verus! {

/// Published when the registry is initialized.
#[derive(Clone, Debug, PartialEq, Eq)]
pub struct Initialized {
    pub admin: Address,
}

/// Published when an address is added to the allowlist.
#[derive(Clone, Debug, PartialEq, Eq)]
pub struct AddressAllowed {
    pub address: Address,
    pub label: Symbol,
    pub admin: Address,
}

/// Published when an address is removed from the allowlist.
#[derive(Clone, Debug, PartialEq, Eq)]
pub struct AddressRemoved {
    pub address: Address,
    pub admin: Address,
}

/// The events of the allowlist registry, one variant per topic.
#[derive(Clone, Debug, PartialEq, Eq)]
pub enum Event {
    /// Topic `init`.
    Initialized(Initialized),
    /// Topic `allowed`.
    AddressAllowed(AddressAllowed),
    /// Topic `removed`.
    AddressRemoved(AddressRemoved),
}

pub fn emit_initialized(env: &mut Env, admin: Address)
    ensures
        final(env).publishes(*old(env), Event::Initialized(Initialized { admin })),
{
    env.publish(Event::Initialized(Initialized { admin }));
}

pub fn emit_address_allowed(env: &mut Env, address: Address, label: Symbol, admin: Address)
    ensures
        final(env).publishes(
            *old(env),
            Event::AddressAllowed(AddressAllowed { address, label, admin }),
        ),
{
    env.publish(Event::AddressAllowed(AddressAllowed { address, label, admin }));
}

pub fn emit_address_removed(env: &mut Env, address: Address, admin: Address)
    ensures
        final(env).publishes(*old(env), Event::AddressRemoved(AddressRemoved { address, admin })),
{
    env.publish(Event::AddressRemoved(AddressRemoved { address, admin }));
}

} // verus!
