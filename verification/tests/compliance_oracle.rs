use bridgelet_contracts::compliance_oracle::{
    Attested, AttestorUpdated, ComplianceOracle, Env, Error, Event, Storage,
};
use bridgelet_contracts::primitives::{Address, Symbol};

fn fresh() -> Env {
    Env::with_storage(Storage::new())
}

fn setup() -> (Env, Address, Address) {
    let mut env = fresh();
    let admin = Address::new("GADMIN");
    let attestor = Address::new("GATTESTOR");
    ComplianceOracle::initialize(&mut env, admin.clone(), attestor.clone()).unwrap();
    (env, admin, attestor)
}

fn status_clear() -> Symbol {
    Symbol::new("CLEAR")
}

fn status_blocked() -> Symbol {
    Symbol::new("BLOCKED")
}

fn target() -> Address {
    Address::new("GTARGET")
}

#[test]
fn test_test_initialize_twice_fails() {
    let (mut env, admin, attestor) = setup();
    let err = ComplianceOracle::initialize(&mut env, admin, attestor).unwrap_err();
    assert_eq!(err, Error::AlreadyInitialized);
}

#[test]
fn test_attest_stores_status() {
    let (mut env, _admin, attestor) = setup();
    let expiry = env.sequence() + 1000;
    ComplianceOracle::attest(&mut env, attestor, target(), status_clear(), expiry).unwrap();
    let (s, e) = ComplianceOracle::status(&env, target()).unwrap();
    assert_eq!(s, status_clear());
    assert_eq!(e, expiry);
}

#[test]
fn test_attest_overwrites_previous_attestation() {
    let (mut env, _admin, attestor) = setup();
    let expiry = env.sequence() + 1000;
    ComplianceOracle::attest(&mut env, attestor.clone(), target(), status_blocked(), expiry)
        .unwrap();
    ComplianceOracle::attest(&mut env, attestor, target(), status_clear(), expiry + 500).unwrap();
    let (s, e) = ComplianceOracle::status(&env, target()).unwrap();
    assert_eq!(s, status_clear());
    assert_eq!(e, expiry + 500);
}

#[test]
fn test_attest_unauthorized_attestor_fails() {
    let (mut env, _admin, _attestor) = setup();
    let impostor = Address::new("GIMPOSTOR");
    let expiry = env.sequence() + 1000;
    let err =
        ComplianceOracle::attest(&mut env, impostor, target(), status_clear(), expiry).unwrap_err();
    assert_eq!(err, Error::Unauthorized);
}

#[test]
fn test_attest_expiry_at_current_ledger_fails() {
    let (mut env, _admin, attestor) = setup();
    let expiry = env.sequence();
    let err =
        ComplianceOracle::attest(&mut env, attestor, target(), status_clear(), expiry).unwrap_err();
    assert_eq!(err, Error::InvalidExpiry);
}

#[test]
fn test_attest_expiry_in_past_fails() {
    let (mut env, _admin, attestor) = setup();
    env.set_sequence_number(100);
    let expiry = 50u32;
    let err =
        ComplianceOracle::attest(&mut env, attestor, target(), status_clear(), expiry).unwrap_err();
    assert_eq!(err, Error::InvalidExpiry);
}

#[test]
fn test_status_returns_none_for_unknown_address() {
    let (env, _admin, _attestor) = setup();
    assert!(ComplianceOracle::status(&env, target()).is_none());
}

#[test]
fn test_status_returns_none_after_expiry() {
    let (mut env, _admin, attestor) = setup();
    env.set_sequence_number(100);
    ComplianceOracle::attest(&mut env, attestor, target(), status_clear(), 200).unwrap();
    env.set_sequence_number(201);
    assert!(
        ComplianceOracle::status(&env, target()).is_none(),
        "stale attestation should be treated as absent"
    );
}

#[test]
fn test_status_returns_some_before_expiry() {
    let (mut env, _admin, attestor) = setup();
    env.set_sequence_number(100);
    ComplianceOracle::attest(&mut env, attestor, target(), status_clear(), 200).unwrap();
    env.set_sequence_number(150);
    let result = ComplianceOracle::status(&env, target());
    assert!(result.is_some());
    let (s, _) = result.unwrap();
    assert_eq!(s, status_clear());
}

#[test]
fn test_status_at_exact_expiry_ledger_is_valid() {
    let (mut env, _admin, attestor) = setup();
    env.set_sequence_number(100);
    ComplianceOracle::attest(&mut env, attestor, target(), status_clear(), 200).unwrap();
    env.set_sequence_number(200);
    assert!(
        ComplianceOracle::status(&env, target()).is_some(),
        "attestation should still be valid at its exact expiry ledger"
    );
}

#[test]
fn test_attestor_rotation_allows_new_attestor() {
    let (mut env, admin, old_attestor) = setup();
    let new_attestor = Address::new("GNEWATTESTOR");
    let expiry = env.sequence() + 1000;
    ComplianceOracle::set_attestor(&mut env, admin, new_attestor.clone()).unwrap();
    let err = ComplianceOracle::attest(&mut env, old_attestor, target(), status_clear(), expiry)
        .unwrap_err();
    assert_eq!(err, Error::Unauthorized);
    ComplianceOracle::attest(&mut env, new_attestor, target(), status_clear(), expiry).unwrap();
    let (s, _) = ComplianceOracle::status(&env, target()).unwrap();
    assert_eq!(s, status_clear());
}

#[test]
fn test_set_attestor_unauthorized_fails() {
    let (mut env, _admin, _attestor) = setup();
    let impostor = Address::new("GIMPOSTOR");
    let new_attestor = Address::new("GNEWATTESTOR");
    let err = ComplianceOracle::set_attestor(&mut env, impostor, new_attestor).unwrap_err();
    assert_eq!(err, Error::Unauthorized);
}

#[test]
fn test_set_attestor_by_non_admin_fails() {
    let (mut env, _admin, attestor) = setup();
    let new_attestor = Address::new("GNEWATTESTOR");
    let err = ComplianceOracle::set_attestor(&mut env, attestor, new_attestor).unwrap_err();
    assert_eq!(err, Error::Unauthorized);
}

#[test]
fn test_ac_only_attestor_can_attest() {
    let (mut env, _admin, attestor) = setup();
    let expiry = env.sequence() + 500;
    let random = Address::new("GRANDOM");
    ComplianceOracle::attest(&mut env, attestor, target(), Symbol::new("CLEAR"), expiry).unwrap();
    assert_eq!(
        ComplianceOracle::attest(&mut env, random, target(), Symbol::new("CLEAR"), expiry)
            .unwrap_err(),
        Error::Unauthorized
    );
}

#[test]
fn test_ac_stale_attestation_returns_none() {
    let (mut env, _admin, attestor) = setup();
    env.set_sequence_number(50);
    ComplianceOracle::attest(&mut env, attestor, target(), Symbol::new("CLEAR"), 100).unwrap();
    env.set_sequence_number(101);
    assert!(
        ComplianceOracle::status(&env, target()).is_none(),
        "stale attestations must be treated as absent"
    );
}

#[test]
fn test_ac_full_lifecycle() {
    let (mut env, admin, attestor) = setup();
    env.set_sequence_number(100);
    ComplianceOracle::attest(&mut env, attestor, target(), Symbol::new("CLEAR"), 200).unwrap();
    let (s, e) = ComplianceOracle::status(&env, target()).unwrap();
    assert_eq!(s, Symbol::new("CLEAR"));
    assert_eq!(e, 200u32);
    env.set_sequence_number(201);
    assert!(ComplianceOracle::status(&env, target()).is_none());
    let new_attestor = Address::new("GNEWATTESTOR");
    ComplianceOracle::set_attestor(&mut env, admin, new_attestor.clone()).unwrap();
    env.set_sequence_number(201);
    ComplianceOracle::attest(&mut env, new_attestor, target(), Symbol::new("CLEAR"), 400).unwrap();
    assert!(ComplianceOracle::status(&env, target()).is_some());
}

#[test]
fn oracle_before_initialize_is_not_initialized() {
    let mut env = fresh();
    let a = Address::new("GATTESTOR");
    assert_eq!(
        ComplianceOracle::attest(&mut env, a.clone(), target(), status_clear(), 10),
        Err(Error::NotInitialized)
    );
    assert_eq!(ComplianceOracle::set_attestor(&mut env, a.clone(), a), Err(Error::NotInitialized));
}

#[test]
fn oracle_events() {
    let (mut env, admin, attestor) = setup();
    ComplianceOracle::attest(&mut env, attestor.clone(), target(), status_clear(), 9).unwrap();
    assert_eq!(
        env.events.last().cloned(),
        Some(Event::Attested(Attested {
            attestor: attestor.clone(),
            address: target(),
            status: status_clear(),
            expiry_ledger: 9,
        }))
    );
    let new_attestor = Address::new("GNEW");
    ComplianceOracle::set_attestor(&mut env, admin.clone(), new_attestor.clone()).unwrap();
    assert_eq!(
        env.events.last().cloned(),
        Some(Event::AttestorUpdated(AttestorUpdated {
            admin,
            old_attestor: attestor,
            new_attestor,
        }))
    );
}

#[test]
fn oracle_invalid_expiry_still_demands_attestor_auth() {
    let (mut env, _admin, attestor) = setup();
    env.set_sequence_number(10);
    let before = env.auths.len();
    assert_eq!(
        ComplianceOracle::attest(&mut env, attestor.clone(), target(), status_clear(), 10),
        Err(Error::InvalidExpiry)
    );
    assert_eq!(env.auths[before..].to_vec(), vec![attestor]);
    assert!(ComplianceOracle::status(&env, target()).is_none());
}
