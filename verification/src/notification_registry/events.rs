use vstd::prelude::*;

use super::Env;
use crate::primitives::{Address, Hash32};

verus! {

/// Published when a subscriber starts watching an address.
#[derive(Clone, Debug, PartialEq, Eq)]
pub struct Subscribed {
    pub subscriber: Address,
    pub watched_address: Address,
    pub endpoint_hash: Hash32,
}

/// Published when an existing subscriber replaces its endpoint hash.
#[derive(Clone, Debug, PartialEq, Eq)]
pub struct EndpointUpdated {
    pub subscriber: Address,
    pub watched_address: Address,
    pub endpoint_hash: Hash32,
}

/// Published when a subscriber stops watching an address.
#[derive(Clone, Debug, PartialEq, Eq)]
pub struct Unsubscribed {
    pub subscriber: Address,
    pub watched_address: Address,
}

/// The events of the notification registry, one variant per topic.
#[derive(Clone, Debug, PartialEq, Eq)]
pub enum Event {
    /// Topic `subscribe`.
    Subscribed(Subscribed),
    /// Topic `updated`.
    EndpointUpdated(EndpointUpdated),
    /// Topic `unsub`.
    Unsubscribed(Unsubscribed),
}

pub fn emit_subscribed(env: &mut Env, subscriber: Address, watched_address: Address, endpoint_hash: Hash32)
    ensures
        final(env).publishes(
            *old(env),
            Event::Subscribed(Subscribed { subscriber, watched_address, endpoint_hash }),
        ),
{
    env.publish(Event::Subscribed(Subscribed { subscriber, watched_address, endpoint_hash }));
}

pub fn emit_endpoint_updated(
    env: &mut Env,
    subscriber: Address,
    watched_address: Address,
    endpoint_hash: Hash32,
)
    ensures
        final(env).publishes(
            *old(env),
            Event::EndpointUpdated(EndpointUpdated { subscriber, watched_address, endpoint_hash }),
        ),
{
    env.publish(
        Event::EndpointUpdated(EndpointUpdated { subscriber, watched_address, endpoint_hash }),
    );
}

pub fn emit_unsubscribed(env: &mut Env, subscriber: Address, watched_address: Address)
    ensures
        final(env).publishes(
            *old(env),
            Event::Unsubscribed(Unsubscribed { subscriber, watched_address }),
        ),
{
    env.publish(Event::Unsubscribed(Unsubscribed { subscriber, watched_address }));
}

} // verus!
