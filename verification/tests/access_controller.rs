use bridgelet_contracts::access_controller::{
    AccessController, Env, Error, Event, RoleGranted, Storage,
};
use bridgelet_contracts::primitives::{Address, Symbol};

fn setup() -> (Env, Address) {
    let mut env = Env::with_storage(Storage::new());
    let super_admin = Address::new("GSUPERADMIN");
    AccessController::initialize(&mut env, super_admin.clone()).unwrap();
    (env, super_admin)
}

fn sym(s: &str) -> Symbol {
    Symbol::new(s)
}

#[test]
fn initialize_succeeds() {
    let (env, super_admin) = setup();
    assert_eq!(AccessController::get_super_admin(&env), Some(super_admin));
}

#[test]
fn initialize_twice_returns_already_initialized() {
    let (mut env, _super_admin) = setup();
    let another = Address::new("GANOTHER");
    assert_eq!(
        AccessController::initialize(&mut env, another),
        Err(Error::AlreadyInitialized)
    );
}

#[test]
fn super_admin_can_grant_role() {
    let (mut env, super_admin) = setup();
    let operator = Address::new("GOPERATOR");
    AccessController::grant_role(&mut env, super_admin, sym("operator"), operator.clone()).unwrap();
    assert!(AccessController::has_role(&env, sym("operator"), operator));
}

#[test]
fn admin_can_grant_role() {
    let (mut env, super_admin) = setup();
    let admin = Address::new("GADMIN");
    let operator = Address::new("GOPERATOR");
    AccessController::grant_role(&mut env, super_admin, sym("admin"), admin.clone()).unwrap();
    AccessController::grant_role(&mut env, admin, sym("operator"), operator.clone()).unwrap();
    assert!(AccessController::has_role(&env, sym("operator"), operator));
}

#[test]
fn unauthorized_grant_returns_error() {
    let (mut env, _super_admin) = setup();
    let nobody = Address::new("GNOBODY");
    let target = Address::new("GTARGET");
    let result = AccessController::grant_role(&mut env, nobody, sym("operator"), target);
    assert_eq!(result, Err(Error::Unauthorized));
}

#[test]
fn super_admin_can_revoke_role() {
    let (mut env, super_admin) = setup();
    let operator = Address::new("GOPERATOR");
    AccessController::grant_role(&mut env, super_admin.clone(), sym("operator"), operator.clone())
        .unwrap();
    assert!(AccessController::has_role(&env, sym("operator"), operator.clone()));
    AccessController::revoke_role(&mut env, super_admin, sym("operator"), operator.clone())
        .unwrap();
    assert!(!AccessController::has_role(&env, sym("operator"), operator));
}

#[test]
fn revoke_nonexistent_role_is_noop() {
    let (mut env, super_admin) = setup();
    let nobody = Address::new("GNOBODY");
    AccessController::revoke_role(&mut env, super_admin, sym("operator"), nobody).unwrap();
}

#[test]
fn unauthorized_revoke_returns_error() {
    let (mut env, super_admin) = setup();
    let operator = Address::new("GOPERATOR");
    let nobody = Address::new("GNOBODY");
    AccessController::grant_role(&mut env, super_admin, sym("operator"), operator.clone()).unwrap();
    let result = AccessController::revoke_role(&mut env, nobody, sym("operator"), operator);
    assert_eq!(result, Err(Error::Unauthorized));
}

#[test]
fn cannot_revoke_super_admin() {
    let (mut env, super_admin) = setup();
    let result = AccessController::revoke_role(
        &mut env,
        super_admin.clone(),
        Symbol::new("super_admin"),
        super_admin,
    );
    assert_eq!(result, Err(Error::CannotRevokeSuperAdmin));
}

#[test]
fn re_grant_same_role_works() {
    let (mut env, super_admin) = setup();
    let operator = Address::new("GOPERATOR");
    AccessController::grant_role(&mut env, super_admin.clone(), sym("operator"), operator.clone())
        .unwrap();
    AccessController::revoke_role(&mut env, super_admin.clone(), sym("operator"), operator.clone())
        .unwrap();
    assert!(!AccessController::has_role(&env, sym("operator"), operator.clone()));
    AccessController::grant_role(&mut env, super_admin, sym("operator"), operator.clone()).unwrap();
    assert!(AccessController::has_role(&env, sym("operator"), operator));
}

#[test]
fn has_role_false_for_ungranted() {
    let (env, _super_admin) = setup();
    let nobody = Address::new("GNOBODY");
    assert!(!AccessController::has_role(&env, sym("operator"), nobody));
}

#[test]
fn has_role_independent_across_roles() {
    let (mut env, super_admin) = setup();
    let account = Address::new("GACCOUNT");
    AccessController::grant_role(&mut env, super_admin, sym("pauser"), account.clone()).unwrap();
    assert!(AccessController::has_role(&env, sym("pauser"), account.clone()));
    assert!(!AccessController::has_role(&env, sym("operator"), account));
}

// ── further cases ────────────────────────────────────────────────────────────

#[test]
fn access_controller_uninitialized_grant_fails() {
    let mut env = Env::with_storage(Storage::new());
    let caller = Address::new("GCALLER");
    let result = AccessController::grant_role(&mut env, caller.clone(), sym("admin"), caller);
    assert_eq!(result, Err(Error::NotInitialized));
    assert_eq!(AccessController::get_super_admin(&env), None);
    // The caller's authorization is demanded before any check.
    assert_eq!(env.auths, vec![Address::new("GCALLER")]);
}

#[test]
fn access_controller_refused_revoke_still_demands_auth() {
    let (mut env, super_admin) = setup();
    let before = env.auths.len();
    let result =
        AccessController::revoke_role(&mut env, super_admin.clone(), sym("super_admin"), super_admin.clone());
    assert_eq!(result, Err(Error::CannotRevokeSuperAdmin));
    assert_eq!(env.auths[before..].to_vec(), vec![super_admin]);
    assert!(env.events.is_empty());
}

#[test]
fn access_controller_records_grant_event_and_auth() {
    let (mut env, super_admin) = setup();
    let operator = Address::new("GOPERATOR");
    AccessController::grant_role(&mut env, super_admin.clone(), sym("operator"), operator.clone())
        .unwrap();
    assert_eq!(env.auths, vec![super_admin.clone(), super_admin.clone()]);
    assert_eq!(
        env.events,
        vec![Event::RoleGranted(RoleGranted {
            role: sym("operator"),
            account: operator,
            caller: super_admin,
        })]
    );
}

#[test]
fn access_controller_super_admin_role_of_other_account_can_be_revoked() {
    let (mut env, super_admin) = setup();
    let other = Address::new("GOTHER");
    AccessController::grant_role(&mut env, super_admin.clone(), sym("super_admin"), other.clone())
        .unwrap();
    AccessController::revoke_role(&mut env, super_admin, sym("super_admin"), other.clone())
        .unwrap();
    assert!(!AccessController::has_role(&env, sym("super_admin"), other));
}
