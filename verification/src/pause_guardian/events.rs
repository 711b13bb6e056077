use vstd::prelude::*;

use super::Env;
use crate::primitives::{Address, Symbol};

verus! {

/// The events of the pause guardian; each carries the scope and the
/// guardian whose approval completed the threshold.
#[derive(Clone, Debug, PartialEq, Eq)]
pub enum Event {
    /// Topic `paused`.
    Paused(Symbol, Address),
    /// Topic `unpaused`.
    Unpaused(Symbol, Address),
}

pub fn emit_paused(env: &mut Env, scope: Symbol, guardian: Address)
    ensures
        final(env).publishes(*old(env), Event::Paused(scope, guardian)),
{
    env.publish(Event::Paused(scope, guardian));
}

pub fn emit_unpaused(env: &mut Env, scope: Symbol, guardian: Address)
    ensures
        final(env).publishes(*old(env), Event::Unpaused(scope, guardian)),
{
    env.publish(Event::Unpaused(scope, guardian));
}

} // verus!
