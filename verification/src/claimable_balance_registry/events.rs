use vstd::prelude::*;

use super::Env;
use crate::primitives::Address;

verus! {

/// Published when the writer records a claimable balance.
#[derive(Clone, Debug, PartialEq, Eq)]
pub struct BalanceRecorded {
    pub recovery_address: Address,
    pub asset: Address,
    pub amount: i128,
    pub new_total: i128,
}

/// Published when a recovery address claims its balance.
#[derive(Clone, Debug, PartialEq, Eq)]
pub struct BalanceClaimed {
    pub recovery_address: Address,
    pub asset: Address,
    pub amount: i128,
}

/// Published on initialization.
#[derive(Clone, Debug, PartialEq, Eq)]
pub struct Initialized {
    pub admin: Address,
    pub writer: Address,
}

/// The events of the claimable balance registry, one variant per topic.
#[derive(Clone, Debug, PartialEq, Eq)]
pub enum Event {
    /// Topic `init`.
    Initialized(Initialized),
    /// Topic `recorded`.
    Recorded(BalanceRecorded),
    /// Topic `claimed`.
    Claimed(BalanceClaimed),
}

pub fn emit_initialized(env: &mut Env, admin: Address, writer: Address)
    ensures
        final(env).publishes(*old(env), Event::Initialized(Initialized { admin, writer })),
{
    env.publish(Event::Initialized(Initialized { admin, writer }));
}

pub fn emit_recorded(
    env: &mut Env,
    recovery_address: Address,
    asset: Address,
    amount: i128,
    new_total: i128,
)
    ensures
        final(env).publishes(
            *old(env),
            Event::Recorded(BalanceRecorded { recovery_address, asset, amount, new_total }),
        ),
{
    env.publish(Event::Recorded(BalanceRecorded { recovery_address, asset, amount, new_total }));
}

pub fn emit_claimed(env: &mut Env, recovery_address: Address, asset: Address, amount: i128)
    ensures
        final(env).publishes(
            *old(env),
            Event::Claimed(BalanceClaimed { recovery_address, asset, amount }),
        ),
{
    env.publish(Event::Claimed(BalanceClaimed { recovery_address, asset, amount }));
}

} // verus!
