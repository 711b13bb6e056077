use vstd::prelude::*;

use super::Env;
use crate::primitives::{Address, Symbol};

verus! {

/// Published when a role is granted.
#[derive(Clone, Debug, PartialEq, Eq)]
pub struct RoleGranted {
    pub role: Symbol,
    pub account: Address,
    pub caller: Address,
}

/// Published when a role is revoked.
#[derive(Clone, Debug, PartialEq, Eq)]
pub struct RoleRevoked {
    pub role: Symbol,
    pub account: Address,
    pub caller: Address,
}

/// The events of the access controller.
#[derive(Clone, Debug, PartialEq, Eq)]
pub enum Event {
    RoleGranted(RoleGranted),
    RoleRevoked(RoleRevoked),
}

pub fn emit_role_granted(env: &mut Env, role: Symbol, account: Address, caller: Address)
    ensures
        final(env).publishes(*old(env), Event::RoleGranted(RoleGranted { role, account, caller })),
{
    env.publish(Event::RoleGranted(RoleGranted { role, account, caller }));
}

pub fn emit_role_revoked(env: &mut Env, role: Symbol, account: Address, caller: Address)
    ensures
        final(env).publishes(*old(env), Event::RoleRevoked(RoleRevoked { role, account, caller })),
{
    env.publish(Event::RoleRevoked(RoleRevoked { role, account, caller }));
}

} // verus!
