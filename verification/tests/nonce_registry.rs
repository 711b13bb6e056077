use bridgelet_contracts::nonce_registry::{Env, Error, NonceRegistry, Storage};
use bridgelet_contracts::primitives::Address;

fn setup() -> Env {
    Env::with_storage(Storage::new())
}

fn signer() -> Address {
    Address::new("GSIGNER")
}

#[test]
fn consume_new_nonce_succeeds() {
    let mut env = setup();
    let result = NonceRegistry::consume(&mut env, signer(), 0u64);
    assert!(result.is_ok());
}

#[test]
fn consume_replay_returns_error() {
    let mut env = setup();
    NonceRegistry::consume(&mut env, signer(), 42u64).unwrap();
    let result = NonceRegistry::consume(&mut env, signer(), 42u64);
    assert_eq!(
        result.unwrap_err(),
        Error::NonceAlreadyConsumed,
        "second consume must return NonceAlreadyConsumed"
    );
}

#[test]
fn consume_different_nonces_both_succeed() {
    let mut env = setup();
    NonceRegistry::consume(&mut env, signer(), 0u64).unwrap();
    NonceRegistry::consume(&mut env, signer(), 1u64).unwrap();
}

#[test]
fn consume_same_nonce_different_signers_both_succeed() {
    let mut env = setup();
    NonceRegistry::consume(&mut env, Address::new("GSIGNERA"), 0u64).unwrap();
    NonceRegistry::consume(&mut env, Address::new("GSIGNERB"), 0u64).unwrap();
}

#[test]
fn is_consumed_returns_false_before_consume() {
    let env = setup();
    assert!(!NonceRegistry::is_consumed(&env, signer(), 99u64));
}

#[test]
fn is_consumed_returns_true_after_consume() {
    let mut env = setup();
    NonceRegistry::consume(&mut env, signer(), 5u64).unwrap();
    assert!(NonceRegistry::is_consumed(&env, signer(), 5u64));
}

#[test]
fn is_consumed_returns_false_for_adjacent_nonce() {
    let mut env = setup();
    NonceRegistry::consume(&mut env, signer(), 5u64).unwrap();
    assert!(!NonceRegistry::is_consumed(&env, signer(), 6u64));
}

#[test]
fn next_nonce_starts_at_zero() {
    let env = setup();
    assert_eq!(NonceRegistry::next_nonce(&env, signer()), 0);
}

#[test]
fn next_nonce_advances_after_consume() {
    let mut env = setup();
    NonceRegistry::consume(&mut env, signer(), 0u64).unwrap();
    assert_eq!(
        NonceRegistry::next_nonce(&env, signer()),
        1,
        "next_nonce must be 1 after consuming nonce 0"
    );
}

#[test]
fn next_nonce_is_monotonically_increasing() {
    let mut env = setup();
    for n in 0u64..5 {
        assert_eq!(NonceRegistry::next_nonce(&env, signer()), n);
        NonceRegistry::consume(&mut env, signer(), n).unwrap();
    }
    assert_eq!(NonceRegistry::next_nonce(&env, signer()), 5);
}

#[test]
fn next_nonce_advances_past_gap() {
    let mut env = setup();
    NonceRegistry::consume(&mut env, signer(), 10u64).unwrap();
    assert_eq!(
        NonceRegistry::next_nonce(&env, signer()),
        11,
        "next_nonce must jump to 11 after consuming nonce 10 directly"
    );
}

#[test]
fn next_nonce_does_not_regress_when_lower_nonce_consumed() {
    let mut env = setup();
    NonceRegistry::consume(&mut env, signer(), 100u64).unwrap();
    assert_eq!(NonceRegistry::next_nonce(&env, signer()), 101);
    NonceRegistry::consume(&mut env, signer(), 5u64).unwrap();
    assert_eq!(
        NonceRegistry::next_nonce(&env, signer()),
        101,
        "next_nonce must not regress after consuming an older nonce"
    );
}

#[test]
fn next_nonce_independent_per_signer() {
    let mut env = setup();
    let a = Address::new("GSIGNERA");
    let b = Address::new("GSIGNERB");
    NonceRegistry::consume(&mut env, a.clone(), 7u64).unwrap();
    assert_eq!(NonceRegistry::next_nonce(&env, a), 8);
    assert_eq!(
        NonceRegistry::next_nonce(&env, b),
        0,
        "signer_b's counter must be unaffected by signer_a's consumes"
    );
}

#[test]
fn nonce_max_value_saturates_next_nonce() {
    let mut env = setup();
    NonceRegistry::consume(&mut env, signer(), u64::MAX).unwrap();
    assert_eq!(NonceRegistry::next_nonce(&env, signer()), u64::MAX);
    assert!(NonceRegistry::is_consumed(&env, signer(), u64::MAX));
    assert_eq!(
        NonceRegistry::consume(&mut env, signer(), u64::MAX),
        Err(Error::NonceAlreadyConsumed)
    );
}

#[test]
fn nonce_consume_demands_no_auth_and_publishes_nothing() {
    let mut env = setup();
    NonceRegistry::consume(&mut env, signer(), 3).unwrap();
    assert!(env.auths.is_empty());
    assert!(env.events.is_empty());
    assert_eq!(Error::NonceAlreadyConsumed.code(), 7000);
}
