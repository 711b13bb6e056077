use vstd::prelude::*;

use super::Env;
use crate::primitives::Address;

verus! {

/// Published once when the queue is initialized.
#[derive(Clone, Debug, PartialEq, Eq)]
pub struct QueueInitialized {
    pub admin: Address,
}

/// Published whenever a sweep request is enqueued.
#[derive(Clone, Debug, PartialEq, Eq)]
pub struct RequestEnqueued {
    pub id: u64,
    pub account: Address,
    pub destination: Address,
}

/// Published when requests are marked as processed (removed).
#[derive(Clone, Copy, Debug, PartialEq, Eq)]
pub struct RequestsProcessed {
    pub count: u32,
}

/// The events of the batch sweep queue, one variant per topic.
#[derive(Clone, Debug, PartialEq, Eq)]
pub enum Event {
    /// Topic `init`.
    Initialized(QueueInitialized),
    /// Topic `enqueue`.
    Enqueued(RequestEnqueued),
    /// Topic `processed`.
    Processed(RequestsProcessed),
}

pub fn emit_initialized(env: &mut Env, admin: Address)
    ensures
        final(env).publishes(*old(env), Event::Initialized(QueueInitialized { admin })),
{
    env.publish(Event::Initialized(QueueInitialized { admin }));
}

pub fn emit_enqueued(env: &mut Env, id: u64, account: Address, destination: Address)
    ensures
        final(env).publishes(
            *old(env),
            Event::Enqueued(RequestEnqueued { id, account, destination }),
        ),
{
    env.publish(Event::Enqueued(RequestEnqueued { id, account, destination }));
}

pub fn emit_processed(env: &mut Env, count: u32)
    ensures
        final(env).publishes(*old(env), Event::Processed(RequestsProcessed { count })),
{
    env.publish(Event::Processed(RequestsProcessed { count }));
}

} // verus!
