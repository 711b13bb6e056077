use bridgelet_contracts::asset_allowlist::{
    AssetAllowed, AssetAllowlist, AssetDisallowed, Env, Error, Event, Storage,
};
use bridgelet_contracts::primitives::Address;

fn fresh() -> Env {
    Env::with_storage(Storage::new())
}

fn setup() -> (Env, Address) {
    let mut env = fresh();
    let admin = Address::new("GADMIN");
    AssetAllowlist::initialize(&mut env, admin.clone()).unwrap();
    (env, admin)
}

#[test]
fn test_initialize_succeeds_once() {
    let mut env = fresh();
    let admin = Address::new("GADMIN");
    let result = AssetAllowlist::initialize(&mut env, admin.clone());
    assert!(result.is_ok());
    assert_eq!(AssetAllowlist::get_admin(&env), Some(admin));
}

#[test]
fn test_initialize_twice_returns_error() {
    let (mut env, admin) = setup();
    let result = AssetAllowlist::initialize(&mut env, admin);
    assert_eq!(result.unwrap_err(), Error::AlreadyInitialized);
}

#[test]
fn allow_new_asset_succeeds() {
    let (mut env, admin) = setup();
    let asset = Address::new("CASSET");
    let result = AssetAllowlist::allow(&mut env, admin, asset.clone());
    assert!(result.is_ok());
    assert!(AssetAllowlist::is_allowed(&env, asset));
}

#[test]
fn allow_non_admin_returns_unauthorized() {
    let (mut env, _admin) = setup();
    let intruder = Address::new("GINTRUDER");
    let asset = Address::new("CASSET");
    let result = AssetAllowlist::allow(&mut env, intruder, asset);
    assert_eq!(result.unwrap_err(), Error::Unauthorized);
}

#[test]
fn allow_updates_list() {
    let (mut env, admin) = setup();
    let asset = Address::new("CASSET");
    AssetAllowlist::allow(&mut env, admin, asset.clone()).unwrap();
    let list = AssetAllowlist::list(&env);
    assert_eq!(list.len(), 1);
    assert_eq!(list[0], asset);
}

#[test]
fn allow_idempotent_no_duplicate_in_list() {
    let (mut env, admin) = setup();
    let asset = Address::new("CASSET");
    AssetAllowlist::allow(&mut env, admin.clone(), asset.clone()).unwrap();
    let result = AssetAllowlist::allow(&mut env, admin, asset.clone());
    assert!(result.is_ok());
    assert_eq!(AssetAllowlist::list(&env).len(), 1);
    assert!(AssetAllowlist::is_allowed(&env, asset));
}

#[test]
fn disallow_existing_asset_succeeds() {
    let (mut env, admin) = setup();
    let asset = Address::new("CASSET");
    AssetAllowlist::allow(&mut env, admin.clone(), asset.clone()).unwrap();
    assert!(AssetAllowlist::is_allowed(&env, asset.clone()));
    AssetAllowlist::disallow(&mut env, admin, asset.clone()).unwrap();
    assert!(!AssetAllowlist::is_allowed(&env, asset));
}

#[test]
fn disallow_non_admin_returns_unauthorized() {
    let (mut env, admin) = setup();
    let intruder = Address::new("GINTRUDER");
    let asset = Address::new("CASSET");
    AssetAllowlist::allow(&mut env, admin, asset.clone()).unwrap();
    let result = AssetAllowlist::disallow(&mut env, intruder, asset);
    assert_eq!(result.unwrap_err(), Error::Unauthorized);
}

#[test]
fn disallow_updates_list() {
    let (mut env, admin) = setup();
    let asset = Address::new("CASSET");
    AssetAllowlist::allow(&mut env, admin.clone(), asset.clone()).unwrap();
    AssetAllowlist::disallow(&mut env, admin, asset).unwrap();
    assert_eq!(AssetAllowlist::list(&env).len(), 0);
}

#[test]
fn disallow_nonexistent_asset_is_noop() {
    let (mut env, admin) = setup();
    let asset = Address::new("CASSET");
    let result = AssetAllowlist::disallow(&mut env, admin, asset.clone());
    assert!(result.is_ok());
    assert!(!AssetAllowlist::is_allowed(&env, asset));
}

#[test]
fn is_allowed_returns_false_for_unknown_asset() {
    let (env, _admin) = setup();
    assert!(!AssetAllowlist::is_allowed(&env, Address::new("CUNKNOWN")));
}

#[test]
fn list_empty_before_any_allow() {
    let (env, _admin) = setup();
    assert_eq!(AssetAllowlist::list(&env).len(), 0);
}

#[test]
fn list_contains_all_allowed_assets() {
    let (mut env, admin) = setup();
    let a = Address::new("CA");
    let b = Address::new("CB");
    let c = Address::new("CC");
    AssetAllowlist::allow(&mut env, admin.clone(), a.clone()).unwrap();
    AssetAllowlist::allow(&mut env, admin.clone(), b.clone()).unwrap();
    AssetAllowlist::allow(&mut env, admin, c.clone()).unwrap();
    assert_eq!(AssetAllowlist::list(&env).len(), 3);
    assert_eq!(AssetAllowlist::list(&env), vec![a, b, c]);
}

#[test]
fn list_excludes_disallowed_asset() {
    let (mut env, admin) = setup();
    let a = Address::new("CA");
    let b = Address::new("CB");
    AssetAllowlist::allow(&mut env, admin.clone(), a.clone()).unwrap();
    AssetAllowlist::allow(&mut env, admin.clone(), b.clone()).unwrap();
    AssetAllowlist::disallow(&mut env, admin, a).unwrap();
    let list = AssetAllowlist::list(&env);
    assert_eq!(list.len(), 1);
    assert_eq!(list[0], b);
}

#[test]
fn reallow_after_disallow_works() {
    let (mut env, admin) = setup();
    let asset = Address::new("CASSET");
    AssetAllowlist::allow(&mut env, admin.clone(), asset.clone()).unwrap();
    AssetAllowlist::disallow(&mut env, admin.clone(), asset.clone()).unwrap();
    assert!(!AssetAllowlist::is_allowed(&env, asset.clone()));
    AssetAllowlist::allow(&mut env, admin, asset.clone()).unwrap();
    assert!(AssetAllowlist::is_allowed(&env, asset));
    assert_eq!(AssetAllowlist::list(&env).len(), 1);
}

#[test]
fn asset_allowlist_before_initialize_is_not_initialized() {
    let mut env = fresh();
    let admin = Address::new("GADMIN");
    let asset = Address::new("CASSET");
    assert_eq!(
        AssetAllowlist::allow(&mut env, admin.clone(), asset.clone()),
        Err(Error::NotInitialized)
    );
    assert_eq!(AssetAllowlist::disallow(&mut env, admin, asset), Err(Error::NotInitialized));
}

#[test]
fn asset_allowlist_events() {
    let (mut env, admin) = setup();
    let asset = Address::new("CASSET");
    AssetAllowlist::allow(&mut env, admin.clone(), asset.clone()).unwrap();
    assert_eq!(
        env.events.last().cloned(),
        Some(Event::AssetAllowed(AssetAllowed { asset: asset.clone(), admin: admin.clone() }))
    );
    AssetAllowlist::disallow(&mut env, admin.clone(), asset.clone()).unwrap();
    assert_eq!(
        env.events.last().cloned(),
        Some(Event::AssetDisallowed(AssetDisallowed { asset, admin }))
    );
}

#[test]
fn asset_allowlist_error_codes() {
    assert_eq!(Error::AlreadyInitialized.code(), 9000);
    assert_eq!(Error::NotInitialized.code(), 9001);
    assert_eq!(Error::Unauthorized.code(), 9002);
}
