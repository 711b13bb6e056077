use bridgelet_contracts::pause_guardian::{Env, Error, Event, PauseGuardian, Storage};
use bridgelet_contracts::primitives::{Address, Symbol};

fn setup(threshold: u32) -> (Env, Address, Address, Address) {
    let mut env = Env::with_storage(Storage::new());
    let guardian_a = Address::new("GGUARDA");
    let guardian_b = Address::new("GGUARDB");
    let guardian_c = Address::new("GGUARDC");
    PauseGuardian::initialize(
        &mut env,
        vec![guardian_a.clone(), guardian_b.clone(), guardian_c],
        threshold,
    )
    .unwrap();
    (env, guardian_a, guardian_b, Address::new("GOWNER"))
}

fn sym(s: &str) -> Symbol {
    Symbol::new(s)
}

#[test]
fn test_initialize() {
    let (env, _a, _b, _owner) = setup(2);
    assert_eq!(PauseGuardian::is_paused(&env, sym("sweeps")), false);
}

#[test]
fn test_one_guardian_is_not_enough() {
    let (mut env, a, _b, _) = setup(2);
    let scope = sym("sweeps");
    PauseGuardian::pause(&mut env, a, scope.clone()).unwrap();
    assert_eq!(PauseGuardian::is_paused(&env, scope), false);
}

#[test]
fn test_threshold_pauses_scope() {
    let (mut env, a, b, _) = setup(2);
    let scope = sym("sweeps");
    PauseGuardian::pause(&mut env, a, scope.clone()).unwrap();
    assert_eq!(PauseGuardian::is_paused(&env, scope.clone()), false);
    PauseGuardian::pause(&mut env, b, scope.clone()).unwrap();
    assert_eq!(PauseGuardian::is_paused(&env, scope), true);
}

#[test]
fn test_scopes_are_isolated() {
    let (mut env, a, b, _) = setup(2);
    let sweeps = sym("sweeps");
    let global = sym("global");
    PauseGuardian::pause(&mut env, a, sweeps.clone()).unwrap();
    PauseGuardian::pause(&mut env, b, sweeps.clone()).unwrap();
    assert_eq!(PauseGuardian::is_paused(&env, sweeps), true);
    assert_eq!(PauseGuardian::is_paused(&env, global), false);
}

#[test]
fn test_unpause_requires_threshold() {
    let (mut env, a, b, _) = setup(2);
    let scope = sym("sweeps");
    PauseGuardian::pause(&mut env, a.clone(), scope.clone()).unwrap();
    PauseGuardian::pause(&mut env, b.clone(), scope.clone()).unwrap();
    assert_eq!(PauseGuardian::is_paused(&env, scope.clone()), true);
    PauseGuardian::unpause(&mut env, a, scope.clone()).unwrap();
    assert_eq!(PauseGuardian::is_paused(&env, scope.clone()), true);
    PauseGuardian::unpause(&mut env, b, scope.clone()).unwrap();
    assert_eq!(PauseGuardian::is_paused(&env, scope), false);
}

#[test]
fn test_unauthorized_guardian_is_rejected() {
    let (mut env, _a, _b, _) = setup(2);
    let unauthorized = Address::new("GUNAUTH");
    let result = PauseGuardian::pause(&mut env, unauthorized, sym("sweeps"));
    assert_eq!(result, Err(Error::Unauthorized));
}

#[test]
fn test_invalid_threshold_is_rejected() {
    let mut env = Env::with_storage(Storage::new());
    let result = PauseGuardian::initialize(&mut env, vec![Address::new("GGUARD")], 0);
    assert_eq!(result, Err(Error::InvalidThreshold));
}

#[test]
fn guardian_initialize_errors() {
    let mut env = Env::with_storage(Storage::new());
    assert_eq!(PauseGuardian::initialize(&mut env, vec![], 1), Err(Error::InvalidGuardians));
    assert_eq!(
        PauseGuardian::initialize(&mut env, vec![Address::new("GG")], 2),
        Err(Error::InvalidThreshold)
    );
    PauseGuardian::initialize(&mut env, vec![Address::new("GG")], 1).unwrap();
    assert_eq!(
        PauseGuardian::initialize(&mut env, vec![Address::new("GG")], 1),
        Err(Error::AlreadyInitialized)
    );
}

#[test]
fn guardian_calls_before_initialize() {
    let mut env = Env::with_storage(Storage::new());
    let g = Address::new("GG");
    assert_eq!(PauseGuardian::pause(&mut env, g.clone(), sym("s")), Err(Error::NotInitialized));
    assert_eq!(PauseGuardian::unpause(&mut env, g.clone(), sym("s")), Err(Error::NotInitialized));
    assert_eq!(PauseGuardian::require_guardian(&env, &g), Err(Error::NotInitialized));
}

#[test]
fn guardian_pause_when_paused_and_unpause_when_unpaused() {
    let (mut env, a, b, _) = setup(1);
    let scope = sym("sweeps");
    assert_eq!(PauseGuardian::unpause(&mut env, a.clone(), scope.clone()), Err(Error::AlreadyUnpaused));
    PauseGuardian::pause(&mut env, a.clone(), scope.clone()).unwrap();
    assert_eq!(PauseGuardian::pause(&mut env, b, scope.clone()), Err(Error::AlreadyPaused));
    assert_eq!(env.events.last().cloned(), Some(Event::Paused(scope.clone(), a.clone())));
    PauseGuardian::unpause(&mut env, a.clone(), scope.clone()).unwrap();
    assert_eq!(env.events.last().cloned(), Some(Event::Unpaused(scope, a)));
}

#[test]
fn guardian_repeated_vote_does_not_count_twice() {
    let (mut env, a, b, _) = setup(2);
    let scope = sym("sweeps");
    PauseGuardian::pause(&mut env, a.clone(), scope.clone()).unwrap();
    PauseGuardian::pause(&mut env, a.clone(), scope.clone()).unwrap();
    assert_eq!(PauseGuardian::count_pause_approvals(&env, &scope), 1);
    assert!(!PauseGuardian::is_paused(&env, scope.clone()));
    PauseGuardian::pause(&mut env, b, scope.clone()).unwrap();
    assert!(PauseGuardian::is_paused(&env, scope.clone()));
    // The approvals are cleared once the scope flips.
    assert_eq!(PauseGuardian::count_pause_approvals(&env, &scope), 0);
    PauseGuardian::unpause(&mut env, a, scope.clone()).unwrap();
    assert_eq!(PauseGuardian::count_unpause_approvals(&env, &scope), 1);
}

#[test]
fn guardian_error_codes() {
    assert_eq!(Error::AlreadyInitialized.code(), 1);
    assert_eq!(Error::NotInitialized.code(), 2);
    assert_eq!(Error::InvalidGuardians.code(), 3);
    assert_eq!(Error::InvalidThreshold.code(), 4);
    assert_eq!(Error::Unauthorized.code(), 5);
    assert_eq!(Error::AlreadyPaused.code(), 6);
    assert_eq!(Error::AlreadyUnpaused.code(), 7);
}
