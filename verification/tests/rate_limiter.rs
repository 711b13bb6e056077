use bridgelet_contracts::primitives::Address;
use bridgelet_contracts::rate_limiter::{
    CallRecorded, Env, Error, Event, LimitsUpdated, RateLimiter, Storage,
};

fn setup(window_ledgers: u32, max_calls: u32) -> (Env, Address, Address) {
    let mut env = Env::with_storage(Storage::new());
    let admin = Address::new("GADMIN");
    let key = Address::new("GKEY");
    RateLimiter::initialize(&mut env, admin.clone(), window_ledgers, max_calls).unwrap();
    (env, admin, key)
}

#[test]
fn test_initialize_and_remaining() {
    let (env, _admin, key) = setup(10, 3);
    assert_eq!(RateLimiter::remaining(&env, key.clone()), 3);
}

#[test]
fn test_allows_exactly_max_calls() {
    let (mut env, _admin, key) = setup(10, 3);
    RateLimiter::check_and_record(&mut env, key.clone()).unwrap();
    assert_eq!(RateLimiter::remaining(&env, key.clone()), 2);
    RateLimiter::check_and_record(&mut env, key.clone()).unwrap();
    assert_eq!(RateLimiter::remaining(&env, key.clone()), 1);
    RateLimiter::check_and_record(&mut env, key.clone()).unwrap();
    assert_eq!(RateLimiter::remaining(&env, key.clone()), 0);
}

#[test]
fn test_rejects_one_past_limit() {
    let (mut env, _admin, key) = setup(10, 3);
    RateLimiter::check_and_record(&mut env, key.clone()).unwrap();
    RateLimiter::check_and_record(&mut env, key.clone()).unwrap();
    RateLimiter::check_and_record(&mut env, key.clone()).unwrap();
    assert_eq!(RateLimiter::remaining(&env, key.clone()), 0);
    let result = RateLimiter::check_and_record(&mut env, key.clone());
    assert_eq!(result, Err(Error::RateLimitExceeded));
    assert_eq!(RateLimiter::remaining(&env, key.clone()), 0);
}

#[test]
fn test_window_resets_after_boundary() {
    let (mut env, _admin, key) = setup(10, 2);
    let start_ledger = env.sequence();
    RateLimiter::check_and_record(&mut env, key.clone()).unwrap();
    RateLimiter::check_and_record(&mut env, key.clone()).unwrap();
    assert_eq!(RateLimiter::remaining(&env, key.clone()), 0);
    env.set_sequence_number(start_ledger + 10);
    assert_eq!(RateLimiter::remaining(&env, key.clone()), 2);
    RateLimiter::check_and_record(&mut env, key.clone()).unwrap();
    assert_eq!(RateLimiter::remaining(&env, key.clone()), 1);
}

#[test]
fn test_different_keys_have_independent_limits() {
    let mut env = Env::with_storage(Storage::new());
    let admin = Address::new("GADMIN");
    let key_a = Address::new("GKEYA");
    let key_b = Address::new("GKEYB");
    RateLimiter::initialize(&mut env, admin, 10, 2).unwrap();
    RateLimiter::check_and_record(&mut env, key_a.clone()).unwrap();
    RateLimiter::check_and_record(&mut env, key_a.clone()).unwrap();
    assert_eq!(RateLimiter::remaining(&env, key_a.clone()), 0);
    assert_eq!(RateLimiter::remaining(&env, key_b.clone()), 2);
    RateLimiter::check_and_record(&mut env, key_b.clone()).unwrap();
    assert_eq!(RateLimiter::remaining(&env, key_b.clone()), 1);
    assert_eq!(RateLimiter::remaining(&env, key_a.clone()), 0);
}

#[test]
fn test_remaining_returns_full_limit_for_new_key() {
    let (env, _admin, key) = setup(20, 5);
    assert_eq!(RateLimiter::remaining(&env, key), 5);
}

#[test]
fn test_invalid_limits_are_rejected() {
    let mut env = Env::with_storage(Storage::new());
    let admin = Address::new("GADMIN");
    let result = RateLimiter::initialize(&mut env, admin, 0, 5);
    assert_eq!(result, Err(Error::InvalidLimits));
}

#[test]
fn test_max_calls_zero_is_rejected() {
    let mut env = Env::with_storage(Storage::new());
    let admin = Address::new("GADMIN");
    let result = RateLimiter::initialize(&mut env, admin, 10, 0);
    assert_eq!(result, Err(Error::InvalidLimits));
}

#[test]
fn test_initialize_only_once() {
    let mut env = Env::with_storage(Storage::new());
    let admin = Address::new("GADMIN");
    RateLimiter::initialize(&mut env, admin.clone(), 10, 3).unwrap();
    let result = RateLimiter::initialize(&mut env, admin, 10, 3);
    assert_eq!(result, Err(Error::AlreadyInitialized));
}

#[test]
fn test_set_limits_updates_configuration() {
    let (mut env, admin, key) = setup(10, 3);
    assert_eq!(RateLimiter::remaining(&env, key.clone()), 3);
    RateLimiter::set_limits(&mut env, admin, 20, 5).unwrap();
    assert_eq!(RateLimiter::remaining(&env, key), 5);
}

#[test]
fn test_unauthorized_set_limits_is_rejected() {
    let (mut env, _admin, _key) = setup(10, 3);
    let unauthorized = Address::new("GOTHER");
    let result = RateLimiter::set_limits(&mut env, unauthorized, 20, 5);
    assert_eq!(result, Err(Error::Unauthorized));
}

// ── further cases ────────────────────────────────────────────────────────────

#[test]
fn rate_limiter_uninitialized_calls_fail() {
    let mut env = Env::with_storage(Storage::new());
    let key = Address::new("GKEY");
    assert_eq!(RateLimiter::remaining(&env, key.clone()), 0);
    assert_eq!(
        RateLimiter::check_and_record(&mut env, key),
        Err(Error::NotInitialized)
    );
    assert_eq!(
        RateLimiter::set_limits(&mut env, Address::new("GADMIN"), 1, 1),
        Err(Error::NotInitialized)
    );
}

#[test]
fn rate_limiter_check_allowed_iff_remaining_positive() {
    let (mut env, _admin, key) = setup(5, 2);
    for _ in 0..4 {
        let before = RateLimiter::remaining(&env, key.clone());
        let result = RateLimiter::check_and_record(&mut env, key.clone());
        assert_eq!(result.is_ok(), before > 0);
        if result.is_ok() {
            assert_eq!(RateLimiter::remaining(&env, key.clone()), before - 1);
        }
    }
}

#[test]
fn rate_limiter_records_events_and_auth() {
    let (mut env, admin, key) = setup(10, 3);
    RateLimiter::check_and_record(&mut env, key.clone()).unwrap();
    RateLimiter::set_limits(&mut env, admin.clone(), 7, 9).unwrap();
    assert_eq!(env.auths, vec![admin.clone(), admin]);
    assert_eq!(
        env.events[1],
        Event::CallRecorded(CallRecorded { key, calls: 1 })
    );
    assert_eq!(
        env.events[2],
        Event::LimitsUpdated(LimitsUpdated { window_ledgers: 7, max_calls: 9 })
    );
}

#[test]
fn rate_limiter_window_end_saturates() {
    let (mut env, _admin, key) = setup(10, 1);
    env.set_sequence_number(u32::MAX - 3);
    RateLimiter::check_and_record(&mut env, key.clone()).unwrap();
    assert_eq!(RateLimiter::remaining(&env, key.clone()), 0);
    env.set_sequence_number(u32::MAX);
    assert_eq!(RateLimiter::remaining(&env, key), 1);
}

#[test]
fn rate_limiter_validate_limits() {
    assert_eq!(RateLimiter::validate_limits(0, 0), Err(Error::InvalidLimits));
    assert_eq!(RateLimiter::validate_limits(1, 0), Err(Error::InvalidLimits));
    assert_eq!(RateLimiter::validate_limits(0, 1), Err(Error::InvalidLimits));
    assert_eq!(RateLimiter::validate_limits(1, 1), Ok(()));
}
