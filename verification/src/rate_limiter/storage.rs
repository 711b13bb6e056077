use vstd::prelude::*;

use super::Env;
use crate::primitives::Address;
use crate::store::Store;

verus! {

/// The configured window length and the number of calls allowed in it.
#[derive(Clone, Copy, Debug, PartialEq, Eq, Structural)]
pub struct Limits {
    pub window_ledgers: u32,
    pub max_calls: u32,
}

/// The window a key is in and how many calls it has made in it.
#[derive(Clone, Copy, Debug, PartialEq, Eq, Structural)]
pub struct RateLimitState {
    pub window_start: u32,
    pub calls: u32,
}

/// The rate limiter's storage: the admin and limits (instance entries) and
/// one state per key (persistent entries).
pub struct Storage {
    pub admin: Option<Address>,
    pub limits: Option<Limits>,
    pub states: Store<Address, RateLimitState>,
}

impl Storage {
    /// The storage invariant: admin and limits are set together, and the
    /// limits are never zero.
    pub open spec fn inv(&self) -> bool {
        &&& self.states.wf()
        &&& (self.admin is Some <==> self.limits is Some)
        &&& (self.limits matches Some(l) ==> l.window_ledgers != 0 && l.max_calls != 0)
    }

    /// Empty storage, as before `initialize`.
    pub fn new() -> (r: Storage)
        ensures
            r.admin is None,
            r.limits is None,
            r.states.wf(),
            r.states@ == Map::<Seq<char>, RateLimitState>::empty(),
    {
        Storage { admin: None, limits: None, states: Store::new() }
    }
}

pub fn has_admin(env: &Env) -> (r: bool)
    ensures
        r == env.storage.admin is Some,
{
    env.storage.admin.is_some()
}

pub fn get_admin(env: &Env) -> (r: Option<Address>)
    ensures
        r == env.storage.admin,
{
    match &env.storage.admin {
        Some(a) => Some(a.clone()),
        None => None,
    }
}

pub fn set_admin(env: &mut Env, admin: &Address)
    ensures
        final(env).storage.admin == Some(*admin),
        final(env).storage.limits == old(env).storage.limits,
        final(env).storage.states == old(env).storage.states,
        final(env).events@ == old(env).events@,
        final(env).auths@ == old(env).auths@,
        final(env).ledger_sequence == old(env).ledger_sequence,
{
    env.storage.admin = Some(admin.clone());
}

pub fn get_limits(env: &Env) -> (r: Option<Limits>)
    ensures
        r == env.storage.limits,
{
    env.storage.limits
}

pub fn set_limits(env: &mut Env, limits: &Limits)
    ensures
        final(env).storage.limits == Some(*limits),
        final(env).storage.admin == old(env).storage.admin,
        final(env).storage.states == old(env).storage.states,
        final(env).events@ == old(env).events@,
        final(env).auths@ == old(env).auths@,
        final(env).ledger_sequence == old(env).ledger_sequence,
{
    env.storage.limits = Some(*limits);
}

pub fn get_state(env: &Env, key: &Address) -> (r: Option<RateLimitState>)
    requires
        env.storage.states.wf(),
    ensures
        r == (if env.storage.states@.contains_key(key@) {
            Some(env.storage.states@[key@])
        } else {
            None
        }),
{
    match env.storage.states.get(key) {
        Some(s) => Some(*s),
        None => None,
    }
}

pub fn set_state(env: &mut Env, key: &Address, state: &RateLimitState)
    requires
        old(env).storage.states.wf(),
    ensures
        final(env).storage.states.wf(),
        final(env).storage.states@ == old(env).storage.states@.insert(key@, *state),
        final(env).storage.admin == old(env).storage.admin,
        final(env).storage.limits == old(env).storage.limits,
        final(env).events@ == old(env).events@,
        final(env).auths@ == old(env).auths@,
        final(env).ledger_sequence == old(env).ledger_sequence,
{
    env.storage.states.insert(key.clone(), *state);
}

} // verus!
