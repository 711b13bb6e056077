use vstd::prelude::*;

use super::Env;
use crate::primitives::Address;

verus! {

/// Published when the rate limiter is initialized.
#[derive(Clone, Debug, PartialEq, Eq)]
pub struct ContractInitialized {
    pub admin: Address,
    pub window_ledgers: u32,
    pub max_calls: u32,
}

/// Published when the admin changes the limits.
#[derive(Clone, Copy, Debug, PartialEq, Eq)]
pub struct LimitsUpdated {
    pub window_ledgers: u32,
    pub max_calls: u32,
}

/// Published when a call is recorded against a key.
#[derive(Clone, Debug, PartialEq, Eq)]
pub struct CallRecorded {
    pub key: Address,
    pub calls: u32,
}

/// The events of the rate limiter, one variant per topic.
#[derive(Clone, Debug, PartialEq, Eq)]
pub enum Event {
    /// Topic `init`.
    Initialized(ContractInitialized),
    /// Topic `limits`.
    LimitsUpdated(LimitsUpdated),
    /// Topic `record`.
    CallRecorded(CallRecorded),
}

pub fn emit_initialized(env: &mut Env, admin: Address, window_ledgers: u32, max_calls: u32)
    ensures
        final(env).publishes(*old(env), Event::Initialized(ContractInitialized { admin, window_ledgers, max_calls })),
{
    env.publish(Event::Initialized(ContractInitialized { admin, window_ledgers, max_calls }));
}

pub fn emit_limits_updated(env: &mut Env, window_ledgers: u32, max_calls: u32)
    ensures
        final(env).publishes(*old(env), Event::LimitsUpdated(LimitsUpdated { window_ledgers, max_calls })),
{
    env.publish(Event::LimitsUpdated(LimitsUpdated { window_ledgers, max_calls }));
}

pub fn emit_call_recorded(env: &mut Env, key: Address, calls: u32)
    ensures
        final(env).publishes(*old(env), Event::CallRecorded(CallRecorded { key, calls })),
{
    env.publish(Event::CallRecorded(CallRecorded { key, calls }));
}

} // verus!
