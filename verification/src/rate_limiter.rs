pub mod errors;
pub mod events;
pub mod storage;

use vstd::prelude::*;

use crate::primitives::Address;
pub use errors::Error;
pub use events::{CallRecorded, ContractInitialized, Event, LimitsUpdated};
pub use storage::{Limits, RateLimitState, Storage};

verus! {

/// The ledger environment of a rate limiter.
pub type Env = crate::env::Env<Storage, Event>;

/// A fixed-window rate limiter: each key may make at most `max_calls`
/// recorded calls per window of `window_ledgers` ledgers.
pub struct RateLimiter;

/// The last ledger (exclusive) of a window that starts at `start`; the sum
/// saturates at `u32::MAX`.
pub open spec fn window_end(start: u32, window_ledgers: u32) -> int {
    if start + window_ledgers > u32::MAX {
        u32::MAX as int
    } else {
        start + window_ledgers
    }
}

/// What `check_and_record` makes of `key`'s state at ledger `ledger`: the new
/// state, or the error it returns.
pub open spec fn recorded_state(
    limits: Option<Limits>,
    states: Map<Seq<char>, RateLimitState>,
    key: Seq<char>,
    ledger: u32,
) -> Result<RateLimitState, Error> {
    match limits {
        None => Err(Error::NotInitialized),
        Some(l) => if !states.contains_key(key) {
            Ok(RateLimitState { window_start: ledger, calls: 1 })
        } else {
            let p = states[key];
            if ledger >= window_end(p.window_start, l.window_ledgers) {
                Ok(RateLimitState { window_start: ledger, calls: 1 })
            } else if p.calls >= l.max_calls {
                Err(Error::RateLimitExceeded)
            } else {
                Ok(RateLimitState { window_start: p.window_start, calls: (p.calls + 1) as u32 })
            }
        },
    }
}

/// How many calls `key` has left in its current window at ledger `ledger`.
pub open spec fn remaining_calls(
    limits: Option<Limits>,
    states: Map<Seq<char>, RateLimitState>,
    key: Seq<char>,
    ledger: u32,
) -> u32 {
    match limits {
        None => 0,
        Some(l) => if !states.contains_key(key) {
            l.max_calls
        } else {
            let p = states[key];
            if ledger >= window_end(p.window_start, l.window_ledgers) {
                l.max_calls
            } else if p.calls >= l.max_calls {
                0
            } else {
                (l.max_calls - p.calls) as u32
            }
        },
    }
}

/// Fixed windows. A key's window opens at the ledger of the call that starts
/// it and ends `window_ledgers` ledgers later. A call inside the window keeps
/// the window's start and counts one more call, or is refused once
/// `max_calls` calls were made in it; a call at or after the window's end, or
/// a key's first call, opens a new window at the call's own ledger.
pub proof fn lemma_fixed_window(
    l: Limits,
    states: Map<Seq<char>, RateLimitState>,
    key: Seq<char>,
    ledger: u32,
)
    ensures
        !states.contains_key(key) ==> recorded_state(Some(l), states, key, ledger) == Ok::<
            RateLimitState,
            Error,
        >(RateLimitState { window_start: ledger, calls: 1 }),
        states.contains_key(key) && ledger >= states[key].window_start + l.window_ledgers
            ==> recorded_state(Some(l), states, key, ledger) == Ok::<RateLimitState, Error>(
            RateLimitState { window_start: ledger, calls: 1 },
        ),
        states.contains_key(key) && ledger < states[key].window_start + l.window_ledgers && ledger
            < u32::MAX && states[key].calls < l.max_calls ==> recorded_state(
            Some(l),
            states,
            key,
            ledger,
        ) == Ok::<RateLimitState, Error>(
            RateLimitState {
                window_start: states[key].window_start,
                calls: (states[key].calls + 1) as u32,
            },
        ),
        states.contains_key(key) && ledger < states[key].window_start + l.window_ledgers && ledger
            < u32::MAX && states[key].calls >= l.max_calls ==> recorded_state(
            Some(l),
            states,
            key,
            ledger,
        ) == Err::<RateLimitState, Error>(Error::RateLimitExceeded),
{
}

/// What is left to a key: all `max_calls` before its first call and once its
/// window has ended; inside the window, `max_calls` less the calls made in
/// it, and never less than 0.
pub proof fn lemma_remaining_in_window(
    l: Limits,
    states: Map<Seq<char>, RateLimitState>,
    key: Seq<char>,
    ledger: u32,
)
    ensures
        !states.contains_key(key) ==> remaining_calls(Some(l), states, key, ledger)
            == l.max_calls,
        states.contains_key(key) && ledger >= states[key].window_start + l.window_ledgers
            ==> remaining_calls(Some(l), states, key, ledger) == l.max_calls,
        states.contains_key(key) && ledger < states[key].window_start + l.window_ledgers && ledger
            < u32::MAX ==> remaining_calls(Some(l), states, key, ledger) == (if states[key].calls
            >= l.max_calls {
            0
        } else {
            l.max_calls - states[key].calls
        }),
{
}

/// A call is recorded exactly when the key has calls remaining.
pub proof fn lemma_recorded_iff_remaining(
    limits: Option<Limits>,
    states: Map<Seq<char>, RateLimitState>,
    key: Seq<char>,
    ledger: u32,
)
    requires
        limits matches Some(l) ==> l.max_calls != 0,
    ensures
        recorded_state(limits, states, key, ledger) is Ok <==> remaining_calls(
            limits,
            states,
            key,
            ledger,
        ) > 0,
{
}

/// A recorded call uses up exactly one of the calls remaining to the key, and
/// no other key's remaining calls change (below the last ledger number, where
/// a fresh window would already be over).
pub proof fn lemma_record_uses_one_call(
    limits: Option<Limits>,
    states: Map<Seq<char>, RateLimitState>,
    key: Seq<char>,
    other: Seq<char>,
    ledger: u32,
)
    requires
        limits matches Some(l) ==> l.max_calls != 0 && l.window_ledgers != 0,
        recorded_state(limits, states, key, ledger) is Ok,
        ledger < u32::MAX,
        other != key,
    ensures
        ({
            let after = states.insert(key, recorded_state(limits, states, key, ledger)->Ok_0);
            &&& remaining_calls(limits, after, key, ledger) == remaining_calls(
                limits,
                states,
                key,
                ledger,
            ) - 1
            &&& remaining_calls(limits, after, other, ledger) == remaining_calls(
                limits,
                states,
                other,
                ledger,
            )
        }),
{
    let after = states.insert(key, recorded_state(limits, states, key, ledger)->Ok_0);
    assert(after.contains_key(key));
    if states.contains_key(other) {
        assert(after[other] == states[other]);
    }
}

impl RateLimiter {
    /// Sets the admin and the limits. The contract can only be initialized once.
    pub fn initialize(env: &mut Env, admin: Address, window_ledgers: u32, max_calls: u32) -> (r:
        Result<(), Error>)
        requires
            old(env).storage.inv(),
        ensures
            final(env).storage.inv(),
            old(env).storage.admin is Some ==> r == Err::<(), Error>(Error::AlreadyInitialized),
            old(env).storage.admin is None && (window_ledgers == 0 || max_calls == 0) ==> r == Err::<
                (),
                Error,
            >(Error::InvalidLimits),
            r is Err ==> *final(env) == *old(env),
            r is Ok <==> old(env).storage.admin is None && window_ledgers != 0 && max_calls != 0,
            r is Ok ==> {
                &&& final(env).storage.admin == Some(admin)
                &&& final(env).storage.limits == Some(Limits { window_ledgers, max_calls })
                &&& final(env).storage.states == old(env).storage.states
                &&& final(env).auths@ == old(env).auths@.push(admin)
                &&& final(env).events@ == old(env).events@.push(
                    Event::Initialized(ContractInitialized { admin, window_ledgers, max_calls }),
                )
                &&& final(env).ledger_sequence == old(env).ledger_sequence
            },
    {
        if storage::has_admin(env) {
            return Err(Error::AlreadyInitialized);
        }
        Self::validate_limits(window_ledgers, max_calls)?;
        env.require_auth(&admin);
        storage::set_admin(env, &admin);
        let limits = Limits { window_ledgers, max_calls };
        storage::set_limits(env, &limits);
        events::emit_initialized(env, admin, window_ledgers, max_calls);
        Ok(())
    }

    /// Checks whether `key` may make another call in its current window and,
    /// if so, records the call.
    ///
    /// A key with no state, or whose window has ended, starts a new window at
    /// the current ledger with one call. Otherwise the call is refused once
    /// the key has made `max_calls` calls in the window.
    pub fn check_and_record(env: &mut Env, key: Address) -> (r: Result<(), Error>)
        requires
            old(env).storage.inv(),
        ensures
            final(env).storage.inv(),
            match recorded_state(
                old(env).storage.limits,
                old(env).storage.states@,
                key@,
                old(env).ledger_sequence,
            ) {
                Err(e) => r == Err::<(), Error>(e) && *final(env) == *old(env),
                Ok(st) => {
                    &&& r == Ok::<(), Error>(())
                    &&& final(env).storage.states@ == old(env).storage.states@.insert(key@, st)
                    &&& final(env).storage.admin == old(env).storage.admin
                    &&& final(env).storage.limits == old(env).storage.limits
                    &&& final(env).events@ == old(env).events@.push(
                        Event::CallRecorded(CallRecorded { key, calls: st.calls }),
                    )
                    &&& final(env).auths@ == old(env).auths@
                    &&& final(env).ledger_sequence == old(env).ledger_sequence
                },
            },
            old(env).storage.limits matches Some(l) && old(env).storage.states@.contains_key(key@)
                && old(env).ledger_sequence < old(env).storage.states@[key@].window_start
                + l.window_ledgers && old(env).ledger_sequence < u32::MAX
                && old(env).storage.states@[key@].calls < l.max_calls ==> r is Ok
                && final(env).storage.states@[key@] == (RateLimitState {
                window_start: old(env).storage.states@[key@].window_start,
                calls: (old(env).storage.states@[key@].calls + 1) as u32,
            }),
    {
        let limits = match storage::get_limits(env) {
            Some(l) => l,
            None => return Err(Error::NotInitialized),
        };
        let current_ledger = env.sequence();
        let state = match storage::get_state(env, &key) {
            None => RateLimitState { window_start: current_ledger, calls: 1 },
            Some(previous) => {
                let window_end = previous.window_start.saturating_add(limits.window_ledgers);
                if current_ledger >= window_end {
                    RateLimitState { window_start: current_ledger, calls: 1 }
                } else {
                    if previous.calls >= limits.max_calls {
                        return Err(Error::RateLimitExceeded);
                    }
                    RateLimitState { window_start: previous.window_start, calls: previous.calls + 1 }
                }
            },
        };
        storage::set_state(env, &key, &state);
        events::emit_call_recorded(env, key, state.calls);
        Ok(())
    }

    /// The number of calls `key` has left in its current window.
    pub fn remaining(env: &Env, key: Address) -> (r: u32)
        requires
            env.storage.inv(),
        ensures
            r == remaining_calls(env.storage.limits, env.storage.states@, key@, env.ledger_sequence),
    {
        let limits = match storage::get_limits(env) {
            Some(value) => value,
            None => return 0,
        };
        let current_ledger = env.sequence();
        let state = match storage::get_state(env, &key) {
            Some(value) => value,
            None => return limits.max_calls,
        };
        let window_end = state.window_start.saturating_add(limits.window_ledgers);
        if current_ledger >= window_end {
            return limits.max_calls;
        }
        limits.max_calls.saturating_sub(state.calls)
    }

    /// Replaces the limits. Only the admin may call this.
    pub fn set_limits(env: &mut Env, admin: Address, window_ledgers: u32, max_calls: u32) -> (r:
        Result<(), Error>)
        requires
            old(env).storage.inv(),
        ensures
            final(env).storage.inv(),
            old(env).storage.admin is None ==> r == Err::<(), Error>(Error::NotInitialized),
            old(env).storage.admin matches Some(a) && a@ != admin@ ==> r == Err::<(), Error>(
                Error::Unauthorized,
            ),
            old(env).storage.admin matches Some(a) && a@ == admin@ && (window_ledgers == 0
                || max_calls == 0) ==> r == Err::<(), Error>(Error::InvalidLimits),
            r is Err ==> *final(env) == *old(env),
            r is Ok <==> (old(env).storage.admin matches Some(a) && a@ == admin@ && window_ledgers
                != 0 && max_calls != 0),
            r is Ok ==> {
                &&& final(env).storage.limits == Some(Limits { window_ledgers, max_calls })
                &&& final(env).storage.admin == old(env).storage.admin
                &&& final(env).storage.states == old(env).storage.states
                &&& final(env).auths@ == old(env).auths@.push(admin)
                &&& final(env).events@ == old(env).events@.push(
                    Event::LimitsUpdated(LimitsUpdated { window_ledgers, max_calls }),
                )
                &&& final(env).ledger_sequence == old(env).ledger_sequence
            },
    {
        let stored_admin = match storage::get_admin(env) {
            Some(a) => a,
            None => return Err(Error::NotInitialized),
        };
        if !stored_admin.same_as(&admin) {
            return Err(Error::Unauthorized);
        }
        Self::validate_limits(window_ledgers, max_calls)?;
        env.require_auth(&admin);
        let limits = Limits { window_ledgers, max_calls };
        storage::set_limits(env, &limits);
        events::emit_limits_updated(env, window_ledgers, max_calls);
        Ok(())
    }

    /// Refuses a window length or call limit of zero.
    pub fn validate_limits(window_ledgers: u32, max_calls: u32) -> (r: Result<(), Error>)
        ensures
            r == (if window_ledgers == 0 || max_calls == 0 {
                Err(Error::InvalidLimits)
            } else {
                Ok(())
            }),
    {
        if window_ledgers == 0 || max_calls == 0 {
            return Err(Error::InvalidLimits);
        }
        Ok(())
    }
}

} // verus!
