use bridgelet_contracts::multisig_approval::{Env, Error, Event, MultiSigApproval, ProposalApproved, Storage};
use bridgelet_contracts::primitives::{Address, Hash32};

fn create_env() -> Env {
    let mut env = Env::with_storage(Storage::new());
    env.set_sequence_number(1_000);
    env
}

fn make_hash(seed: u8) -> Hash32 {
    Hash32::from_array([seed; 32])
}

fn signer_names(n: u32) -> Vec<Address> {
    (0..n).map(|i| Address::new(&format!("GSIGNER{}", i))).collect()
}

fn setup_n_of_m(n: u32, threshold: u32) -> (Env, Vec<Address>) {
    let mut env = create_env();
    let signers = signer_names(n);
    MultiSigApproval::initialize(&mut env, signers.clone(), threshold).unwrap();
    (env, signers)
}

#[test]
fn test_initialize_stores_config() {
    let (env, _signers) = setup_n_of_m(3, 2);
    assert_eq!(MultiSigApproval::get_threshold(&env), Some(2u32));
    let stored = MultiSigApproval::get_signers(&env).unwrap();
    assert_eq!(stored.len(), 3);
}

#[test]
fn test_test_double_initialize_panics() {
    let (mut env, signers) = setup_n_of_m(2, 1);
    let err = MultiSigApproval::initialize(&mut env, signers, 1u32).unwrap_err();
    assert_eq!(err, Error::AlreadyInitialized);
    assert_eq!(err.code(), 5000);
}

#[test]
fn test_threshold_exceeds_signers_rejected() {
    let mut env = create_env();
    let err = MultiSigApproval::initialize(&mut env, signer_names(2), 3u32).unwrap_err();
    assert_eq!(err, Error::ThresholdTooHigh);
    assert_eq!(err.code(), 5003);
}

#[test]
fn test_threshold_zero_rejected() {
    let mut env = create_env();
    let err = MultiSigApproval::initialize(&mut env, signer_names(1), 0u32).unwrap_err();
    assert_eq!(err, Error::ThresholdZero);
    assert_eq!(err.code(), 5004);
}

#[test]
fn test_2_of_3_not_approved_after_one() {
    let (mut env, signers) = setup_n_of_m(3, 2);
    let id = MultiSigApproval::propose(&mut env, signers[0].clone(), make_hash(1)).unwrap();
    MultiSigApproval::approve(&mut env, signers[0].clone(), id).unwrap();
    assert!(!MultiSigApproval::is_approved(&env, id));
}

#[test]
fn test_2_of_3_approved_after_two() {
    let (mut env, signers) = setup_n_of_m(3, 2);
    let id = MultiSigApproval::propose(&mut env, signers[0].clone(), make_hash(2)).unwrap();
    MultiSigApproval::approve(&mut env, signers[0].clone(), id).unwrap();
    MultiSigApproval::approve(&mut env, signers[1].clone(), id).unwrap();
    assert!(MultiSigApproval::is_approved(&env, id));
}

#[test]
fn test_3_of_3_requires_all_signers() {
    let (mut env, signers) = setup_n_of_m(3, 3);
    let id = MultiSigApproval::propose(&mut env, signers[0].clone(), make_hash(3)).unwrap();
    MultiSigApproval::approve(&mut env, signers[0].clone(), id).unwrap();
    assert!(!MultiSigApproval::is_approved(&env, id));
    MultiSigApproval::approve(&mut env, signers[1].clone(), id).unwrap();
    assert!(!MultiSigApproval::is_approved(&env, id));
    MultiSigApproval::approve(&mut env, signers[2].clone(), id).unwrap();
    assert!(MultiSigApproval::is_approved(&env, id));
}

#[test]
fn test_3_of_5_approved_after_threshold() {
    let (mut env, signers) = setup_n_of_m(5, 3);
    let id = MultiSigApproval::propose(&mut env, signers[0].clone(), make_hash(4)).unwrap();
    MultiSigApproval::approve(&mut env, signers[0].clone(), id).unwrap();
    MultiSigApproval::approve(&mut env, signers[1].clone(), id).unwrap();
    assert!(!MultiSigApproval::is_approved(&env, id));
    MultiSigApproval::approve(&mut env, signers[2].clone(), id).unwrap();
    assert!(MultiSigApproval::is_approved(&env, id));
    MultiSigApproval::approve(&mut env, signers[3].clone(), id).unwrap();
    assert!(MultiSigApproval::is_approved(&env, id));
}

#[test]
fn test_duplicate_approval_rejected() {
    let (mut env, signers) = setup_n_of_m(3, 2);
    let id = MultiSigApproval::propose(&mut env, signers[0].clone(), make_hash(5)).unwrap();
    MultiSigApproval::approve(&mut env, signers[0].clone(), id).unwrap();
    let err = MultiSigApproval::approve(&mut env, signers[0].clone(), id).unwrap_err();
    assert_eq!(err, Error::AlreadyApproved);
    assert_eq!(err.code(), 5006);
}

#[test]
fn test_non_signer_cannot_approve() {
    let (mut env, signers) = setup_n_of_m(2, 1);
    let id = MultiSigApproval::propose(&mut env, signers[0].clone(), make_hash(6)).unwrap();
    let outsider = Address::new("GOUTSIDER");
    let err = MultiSigApproval::approve(&mut env, outsider, id).unwrap_err();
    assert_eq!(err, Error::NotASigner);
    assert_eq!(err.code(), 5002);
}

#[test]
fn test_set_signers_updates_config() {
    let (mut env, signers) = setup_n_of_m(3, 2);
    let admin = signers[0].clone();
    let new_signer = Address::new("GNEWSIGNER");
    MultiSigApproval::set_signers(&mut env, admin.clone(), vec![admin, new_signer], 1u32).unwrap();
    assert_eq!(MultiSigApproval::get_threshold(&env), Some(1u32));
    assert_eq!(MultiSigApproval::get_signers(&env).unwrap().len(), 2);
}

#[test]
fn test_non_admin_cannot_set_signers() {
    let (mut env, signers) = setup_n_of_m(3, 2);
    let imposter = Address::new("GIMPOSTER");
    let err = MultiSigApproval::set_signers(&mut env, imposter, vec![signers[0].clone()], 1u32)
        .unwrap_err();
    assert_eq!(err, Error::Unauthorized);
    assert_eq!(err.code(), 5007);
}

#[test]
fn test_set_signers_threshold_too_high_rejected() {
    let (mut env, signers) = setup_n_of_m(3, 2);
    let admin = signers[0].clone();
    let err = MultiSigApproval::set_signers(&mut env, admin.clone(), vec![admin], 5u32).unwrap_err();
    assert_eq!(err, Error::ThresholdTooHigh);
}

#[test]
fn test_approve_nonexistent_proposal_fails() {
    let (mut env, signers) = setup_n_of_m(2, 1);
    let err = MultiSigApproval::approve(&mut env, signers[0].clone(), 9999u64).unwrap_err();
    assert_eq!(err, Error::ProposalNotFound);
    assert_eq!(err.code(), 5005);
}

#[test]
fn test_is_approved_unknown_proposal_returns_false() {
    let (env, _signers) = setup_n_of_m(2, 1);
    assert!(!MultiSigApproval::is_approved(&env, 9999u64));
}

#[test]
fn multisig_validation_and_uninitialized_errors() {
    assert_eq!(
        MultiSigApproval::validate_signers_and_threshold(&vec![], 1).unwrap_err(),
        Error::NoSigners
    );
    assert!(MultiSigApproval::validate_signers_and_threshold(&signer_names(2), 2).is_ok());
    let mut env = create_env();
    let a = Address::new("GA");
    assert_eq!(
        MultiSigApproval::propose(&mut env, a.clone(), make_hash(9)).unwrap_err(),
        Error::NotInitialized
    );
    assert_eq!(MultiSigApproval::get_signers(&env), None);
    assert_eq!(MultiSigApproval::get_threshold(&env), None);
}

#[test]
fn multisig_proposal_ids_increase_and_non_signer_cannot_propose() {
    let (mut env, signers) = setup_n_of_m(2, 2);
    let id0 = MultiSigApproval::propose(&mut env, signers[0].clone(), make_hash(1)).unwrap();
    let id1 = MultiSigApproval::propose(&mut env, signers[1].clone(), make_hash(1)).unwrap();
    assert_eq!((id0, id1), (0, 1));
    assert_eq!(
        MultiSigApproval::propose(&mut env, Address::new("GOUT"), make_hash(1)).unwrap_err(),
        Error::NotASigner
    );
}

#[test]
fn multisig_set_signers_keeps_open_proposals() {
    let (mut env, signers) = setup_n_of_m(3, 3);
    let id = MultiSigApproval::propose(&mut env, signers[0].clone(), make_hash(7)).unwrap();
    MultiSigApproval::approve(&mut env, signers[0].clone(), id).unwrap();
    MultiSigApproval::set_signers(&mut env, signers[0].clone(), signers.clone(), 3).unwrap();
    // The recorded approval survives the update.
    assert_eq!(
        MultiSigApproval::approve(&mut env, signers[0].clone(), id).unwrap_err(),
        Error::AlreadyApproved
    );
    MultiSigApproval::approve(&mut env, signers[1].clone(), id).unwrap();
    MultiSigApproval::approve(&mut env, signers[2].clone(), id).unwrap();
    assert!(MultiSigApproval::is_approved(&env, id));
}

#[test]
fn multisig_threshold_change_does_not_affect_open_proposals() {
    let (mut env, signers) = setup_n_of_m(3, 2);
    let id = MultiSigApproval::propose(&mut env, signers[0].clone(), make_hash(1)).unwrap();
    MultiSigApproval::approve(&mut env, signers[0].clone(), id).unwrap();
    assert!(!MultiSigApproval::is_approved(&env, id));
    MultiSigApproval::set_signers(&mut env, signers[0].clone(), vec![signers[0].clone(), signers[1].clone()], 1)
        .unwrap();
    assert!(!MultiSigApproval::is_approved(&env, id));
    // A proposal made after the change is judged by the new threshold.
    let id2 = MultiSigApproval::propose(&mut env, signers[0].clone(), make_hash(2)).unwrap();
    MultiSigApproval::approve(&mut env, signers[0].clone(), id2).unwrap();
    assert!(MultiSigApproval::is_approved(&env, id2));
    // The open proposal still needs its second approval.
    MultiSigApproval::approve(&mut env, signers[1].clone(), id).unwrap();
    assert!(MultiSigApproval::is_approved(&env, id));
}

#[test]
fn multisig_refused_approval_after_signer_check_demands_auth() {
    let (mut env, signers) = setup_n_of_m(2, 1);
    let before = env.auths.len();
    assert_eq!(
        MultiSigApproval::approve(&mut env, signers[1].clone(), 42),
        Err(Error::ProposalNotFound)
    );
    assert_eq!(env.auths[before..].to_vec(), vec![signers[1].clone()]);
    let before = env.auths.len();
    assert_eq!(
        MultiSigApproval::approve(&mut env, Address::new("GOUT"), 42),
        Err(Error::NotASigner)
    );
    assert_eq!(env.auths.len(), before);
}

#[test]
fn multisig_approval_event_carries_current_threshold() {
    let (mut env, signers) = setup_n_of_m(3, 3);
    let id = MultiSigApproval::propose(&mut env, signers[0].clone(), make_hash(3)).unwrap();
    MultiSigApproval::set_signers(&mut env, signers[0].clone(), signers.clone(), 2).unwrap();
    MultiSigApproval::approve(&mut env, signers[1].clone(), id).unwrap();
    assert_eq!(
        env.events.last().cloned(),
        Some(Event::ProposalApproved(ProposalApproved {
            proposal_id: id,
            signer: signers[1].clone(),
            approval_count: 1,
            threshold: 2,
        }))
    );
}
