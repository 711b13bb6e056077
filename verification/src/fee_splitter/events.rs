use vstd::prelude::*;

use super::Env;
use crate::primitives::Address;

verus! {

/// Published when the splitter is initialized.
#[derive(Clone, Debug, PartialEq, Eq)]
pub struct ContractInitialized {
    pub admin: Address,
    pub payee_count: u32,
}

/// Published once per payee for each `split`.
#[derive(Clone, Debug, PartialEq, Eq)]
pub struct SplitExecuted {
    pub asset: Address,
    pub payee: Address,
    pub amount: i128,
    pub share_bps: u32,
}

/// Published when the payee configuration is replaced.
#[derive(Clone, Debug, PartialEq, Eq)]
pub struct PayeesUpdated {
    pub payees: Vec<Address>,
    pub shares_bps: Vec<u32>,
}

/// The events of the fee splitter, one variant per topic.
#[derive(Clone, Debug, PartialEq, Eq)]
pub enum Event {
    /// Topic `init`.
    Initialized(ContractInitialized),
    /// Topic `split`.
    SplitExecuted(SplitExecuted),
    /// Topic `payees`.
    PayeesUpdated(PayeesUpdated),
}

pub fn emit_initialized(env: &mut Env, admin: Address, payee_count: u32)
    ensures
        final(env).publishes(*old(env), Event::Initialized(ContractInitialized { admin, payee_count })),
{
    env.publish(Event::Initialized(ContractInitialized { admin, payee_count }));
}

pub fn emit_split_executed(env: &mut Env, asset: Address, payee: Address, amount: i128, share_bps: u32)
    ensures
        final(env).publishes(
            *old(env),
            Event::SplitExecuted(SplitExecuted { asset, payee, amount, share_bps }),
        ),
{
    env.publish(Event::SplitExecuted(SplitExecuted { asset, payee, amount, share_bps }));
}

pub fn emit_payees_updated(env: &mut Env, payees: Vec<Address>, shares_bps: Vec<u32>)
    ensures
        final(env).publishes(*old(env), Event::PayeesUpdated(PayeesUpdated { payees, shares_bps })),
{
    env.publish(Event::PayeesUpdated(PayeesUpdated { payees, shares_bps }));
}

} // verus!
