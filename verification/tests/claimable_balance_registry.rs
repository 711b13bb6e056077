use bridgelet_contracts::claimable_balance_registry::{
    BalanceClaimed, BalanceRecorded, ClaimableBalanceRegistry, Env, Error, Event, Storage,
};
use bridgelet_contracts::primitives::Address;

fn fresh() -> Env {
    Env::with_storage(Storage::new())
}

fn setup() -> (Env, Address, Address) {
    let mut env = fresh();
    let admin = Address::new("GADMIN");
    let writer = Address::new("GWRITER");
    ClaimableBalanceRegistry::initialize(&mut env, admin.clone(), writer.clone()).unwrap();
    (env, admin, writer)
}

fn pair() -> (Address, Address) {
    (Address::new("GRECOVERY"), Address::new("CASSET"))
}

#[test]
fn test_initialize_twice_fails() {
    let (mut env, admin, writer) = setup();
    let err = ClaimableBalanceRegistry::initialize(&mut env, admin, writer).unwrap_err();
    assert_eq!(err, Error::AlreadyInitialized);
}

#[test]
fn test_record_stores_balance() {
    let (mut env, _admin, writer) = setup();
    let (recovery, asset) = pair();
    ClaimableBalanceRegistry::record(&mut env, writer, recovery.clone(), asset.clone(), 1000)
        .unwrap();
    assert_eq!(ClaimableBalanceRegistry::balance_of(&env, recovery, asset), 1000i128);
}

#[test]
fn test_record_accumulates_balance() {
    let (mut env, _admin, writer) = setup();
    let (recovery, asset) = pair();
    ClaimableBalanceRegistry::record(
        &mut env,
        writer.clone(),
        recovery.clone(),
        asset.clone(),
        500,
    )
    .unwrap();
    ClaimableBalanceRegistry::record(&mut env, writer, recovery.clone(), asset.clone(), 300)
        .unwrap();
    assert_eq!(ClaimableBalanceRegistry::balance_of(&env, recovery, asset), 800i128);
}

#[test]
fn test_record_different_assets_are_independent() {
    let (mut env, _admin, writer) = setup();
    let recovery = Address::new("GRECOVERY");
    let asset_a = Address::new("CASSETA");
    let asset_b = Address::new("CASSETB");
    ClaimableBalanceRegistry::record(
        &mut env,
        writer.clone(),
        recovery.clone(),
        asset_a.clone(),
        100,
    )
    .unwrap();
    ClaimableBalanceRegistry::record(&mut env, writer, recovery.clone(), asset_b.clone(), 200)
        .unwrap();
    assert_eq!(ClaimableBalanceRegistry::balance_of(&env, recovery.clone(), asset_a), 100i128);
    assert_eq!(ClaimableBalanceRegistry::balance_of(&env, recovery, asset_b), 200i128);
}

#[test]
fn test_record_unauthorized_writer_fails() {
    let (mut env, _admin, _writer) = setup();
    let impostor = Address::new("GIMPOSTOR");
    let (recovery, asset) = pair();
    let err =
        ClaimableBalanceRegistry::record(&mut env, impostor, recovery, asset, 100).unwrap_err();
    assert_eq!(err, Error::Unauthorized);
}

#[test]
fn test_record_zero_amount_fails() {
    let (mut env, _admin, writer) = setup();
    let (recovery, asset) = pair();
    let err = ClaimableBalanceRegistry::record(&mut env, writer, recovery, asset, 0).unwrap_err();
    assert_eq!(err, Error::InvalidAmount);
}

#[test]
fn test_record_negative_amount_fails() {
    let (mut env, _admin, writer) = setup();
    let (recovery, asset) = pair();
    let err =
        ClaimableBalanceRegistry::record(&mut env, writer, recovery, asset, -50).unwrap_err();
    assert_eq!(err, Error::InvalidAmount);
}

#[test]
fn test_claim_returns_recorded_amount_and_zeroes_balance() {
    let (mut env, _admin, writer) = setup();
    let (recovery, asset) = pair();
    ClaimableBalanceRegistry::record(&mut env, writer, recovery.clone(), asset.clone(), 750)
        .unwrap();
    let claimed = ClaimableBalanceRegistry::claim(&mut env, recovery.clone(), asset.clone()).unwrap();
    assert_eq!(claimed, 750i128);
    assert_eq!(ClaimableBalanceRegistry::balance_of(&env, recovery, asset), 0i128);
}

#[test]
fn test_double_claim_fails() {
    let (mut env, _admin, writer) = setup();
    let (recovery, asset) = pair();
    ClaimableBalanceRegistry::record(&mut env, writer, recovery.clone(), asset.clone(), 750)
        .unwrap();
    ClaimableBalanceRegistry::claim(&mut env, recovery.clone(), asset.clone()).unwrap();
    let err = ClaimableBalanceRegistry::claim(&mut env, recovery, asset).unwrap_err();
    assert_eq!(err, Error::NothingToClaim);
}

#[test]
fn test_claim_with_no_record_fails() {
    let (mut env, _admin, _writer) = setup();
    let (recovery, asset) = pair();
    let err = ClaimableBalanceRegistry::claim(&mut env, recovery, asset).unwrap_err();
    assert_eq!(err, Error::NothingToClaim);
}

#[test]
fn test_record_then_claim_then_record_again() {
    let (mut env, _admin, writer) = setup();
    let (recovery, asset) = pair();
    ClaimableBalanceRegistry::record(
        &mut env,
        writer.clone(),
        recovery.clone(),
        asset.clone(),
        400,
    )
    .unwrap();
    assert_eq!(
        ClaimableBalanceRegistry::claim(&mut env, recovery.clone(), asset.clone()).unwrap(),
        400i128
    );
    assert_eq!(ClaimableBalanceRegistry::balance_of(&env, recovery.clone(), asset.clone()), 0i128);
    ClaimableBalanceRegistry::record(&mut env, writer, recovery.clone(), asset.clone(), 200)
        .unwrap();
    assert_eq!(
        ClaimableBalanceRegistry::balance_of(&env, recovery.clone(), asset.clone()),
        200i128
    );
    assert_eq!(ClaimableBalanceRegistry::claim(&mut env, recovery, asset).unwrap(), 200i128);
}

#[test]
fn test_balance_of_returns_zero_for_unknown() {
    let (env, _admin, _writer) = setup();
    let (recovery, asset) = pair();
    assert_eq!(ClaimableBalanceRegistry::balance_of(&env, recovery, asset), 0i128);
}

#[test]
fn test_set_writer_allows_new_writer() {
    let (mut env, admin, old_writer) = setup();
    let new_writer = Address::new("GNEWWRITER");
    let (recovery, asset) = pair();
    ClaimableBalanceRegistry::set_writer(&mut env, admin, new_writer.clone()).unwrap();
    let err = ClaimableBalanceRegistry::record(
        &mut env,
        old_writer,
        recovery.clone(),
        asset.clone(),
        100,
    )
    .unwrap_err();
    assert_eq!(err, Error::Unauthorized);
    ClaimableBalanceRegistry::record(&mut env, new_writer, recovery.clone(), asset.clone(), 100)
        .unwrap();
    assert_eq!(ClaimableBalanceRegistry::balance_of(&env, recovery, asset), 100i128);
}

#[test]
fn test_set_writer_unauthorized_fails() {
    let (mut env, _admin, _writer) = setup();
    let impostor = Address::new("GIMPOSTOR");
    let new_writer = Address::new("GNEWWRITER");
    let err = ClaimableBalanceRegistry::set_writer(&mut env, impostor, new_writer).unwrap_err();
    assert_eq!(err, Error::Unauthorized);
}

#[test]
fn claimable_before_initialize_is_not_initialized() {
    let mut env = fresh();
    let w = Address::new("GWRITER");
    let (recovery, asset) = pair();
    assert_eq!(
        ClaimableBalanceRegistry::record(&mut env, w.clone(), recovery, asset, 10),
        Err(Error::NotInitialized)
    );
    assert_eq!(
        ClaimableBalanceRegistry::set_writer(&mut env, w.clone(), w),
        Err(Error::NotInitialized)
    );
}

#[test]
fn claimable_events_carry_amounts_and_totals() {
    let (mut env, _admin, writer) = setup();
    let (recovery, asset) = pair();
    ClaimableBalanceRegistry::record(
        &mut env,
        writer.clone(),
        recovery.clone(),
        asset.clone(),
        5,
    )
    .unwrap();
    ClaimableBalanceRegistry::record(&mut env, writer, recovery.clone(), asset.clone(), 7).unwrap();
    assert_eq!(
        env.events.last().cloned(),
        Some(Event::Recorded(BalanceRecorded {
            recovery_address: recovery.clone(),
            asset: asset.clone(),
            amount: 7,
            new_total: 12,
        }))
    );
    ClaimableBalanceRegistry::claim(&mut env, recovery.clone(), asset.clone()).unwrap();
    assert_eq!(
        env.events.last().cloned(),
        Some(Event::Claimed(BalanceClaimed { recovery_address: recovery.clone(), asset, amount: 12 }))
    );
    assert!(env.auths.contains(&recovery));
}

#[test]
fn claimable_error_codes() {
    assert_eq!(Error::AlreadyInitialized.code(), 1);
    assert_eq!(Error::NotInitialized.code(), 2);
    assert_eq!(Error::Unauthorized.code(), 3);
    assert_eq!(Error::NothingToClaim.code(), 4);
    assert_eq!(Error::InvalidAmount.code(), 5);
}

#[test]
fn claimable_refused_calls_still_demand_auth() {
    let (mut env, _admin, writer) = setup();
    let (recovery, asset) = pair();
    let before = env.auths.len();
    assert_eq!(
        ClaimableBalanceRegistry::claim(&mut env, recovery.clone(), asset.clone()),
        Err(Error::NothingToClaim)
    );
    assert_eq!(env.auths[before..].to_vec(), vec![recovery.clone()]);
    assert_eq!(
        ClaimableBalanceRegistry::record(&mut env, writer.clone(), recovery, asset, 0),
        Err(Error::InvalidAmount)
    );
    assert_eq!(env.auths.last().cloned(), Some(writer));
    assert_eq!(env.events.len(), 1);
}
