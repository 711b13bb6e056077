pub mod errors;
pub mod events;
pub mod storage;

use vstd::prelude::*;

use crate::address_list::views;
use crate::primitives::{Address, Hash32};
pub use errors::Error;
pub use events::{ContractInitialized, Event, ProposalApproved, ProposalCreated, SignersUpdated};
pub use storage::{signer_of, Proposal, Storage};

verus! {

/// The ledger environment of a multisig.
pub type Env = crate::env::Env<Storage, Event>;

/// An M-of-N approval primitive: signers propose opaque actions and approve
/// them; a proposal is approved once its approvals reach the threshold that
/// was in force when it was proposed.
pub struct MultiSigApproval;

/// What `validate_signers_and_threshold` refuses, if anything.
pub open spec fn signers_error(signer_count: nat, threshold: u32) -> Option<Error> {
    if signer_count == 0 {
        Some(Error::NoSigners)
    } else if threshold == 0 {
        Some(Error::ThresholdZero)
    } else if threshold > signer_count {
        Some(Error::ThresholdTooHigh)
    } else {
        None
    }
}

/// Whether proposal `id` has reached the threshold it was proposed under.
pub open spec fn approved_now(s: &Storage, id: u64) -> bool {
    s.proposals@.contains_key(id) && s.proposals@[id].approval_count >= s.proposals@[id].threshold
}

/// What `approve` refuses, if anything.
pub open spec fn approve_error(s: &Storage, signer: Seq<char>, id: u64) -> Option<Error> {
    if s.admin is None {
        Some(Error::NotInitialized)
    } else if !signer_of(s, signer) {
        Some(Error::NotASigner)
    } else if !s.proposals@.contains_key(id) {
        Some(Error::ProposalNotFound)
    } else if s.approved@.contains_key((id, signer)) {
        Some(Error::AlreadyApproved)
    } else {
        None
    }
}

/// After a signer's approval of a proposal has been recorded, the same
/// signer's next approval of it is refused with `AlreadyApproved`; and an
/// approval never takes a proposal out of the approved state.
pub proof fn lemma_approve_once_and_monotonic(
    pre: Storage,
    post: Storage,
    signer: Seq<char>,
    id: u64,
    other: u64,
)
    requires
        approve_error(&pre, signer, id) is None,
        pre.proposals@[id].approval_count < u32::MAX,
        post.approved@ == pre.approved@.insert((id, signer), ()),
        post.proposals@ == pre.proposals@.insert(
            id,
            Proposal {
                action_hash: pre.proposals@[id].action_hash,
                approval_count: (pre.proposals@[id].approval_count + 1) as u32,
                threshold: pre.proposals@[id].threshold,
            },
        ),
        post.admin == pre.admin,
        post.signers == pre.signers,
        post.threshold == pre.threshold,
    ensures
        approve_error(&post, signer, id) == Some(Error::AlreadyApproved),
        approved_now(&pre, other) ==> approved_now(&post, other),
{
}

/// Replacing the signers and the threshold does not retroactively affect open
/// proposals: every proposal is approved afterwards exactly when it was
/// before.
pub proof fn lemma_set_signers_keeps_open_proposals(pre: Storage, post: Storage, id: u64)
    requires
        post.proposals == pre.proposals,
        post.approved == pre.approved,
    ensures
        approved_now(&post, id) == approved_now(&pre, id),
{
}

/// Only the signers in the current list may propose and approve: once the
/// multisig is initialized, an address is refused with `NotASigner` exactly
/// when it is not in the signer list, whatever else it is (the admin
/// included, once `set_signers` has left it out).
pub proof fn lemma_only_listed_signers(s: Storage, a: Seq<char>, id: u64)
    requires
        s.inv(),
        s.admin is Some,
    ensures
        approve_error(&s, a, id) == Some(Error::NotASigner) <==> !views(
            s.signers->Some_0@,
        ).contains(a),
        approve_error(&s, a, id) is None ==> views(s.signers->Some_0@).contains(a),
{
}

impl MultiSigApproval {
    /// Refuses an empty signer list, a zero threshold, and a threshold above
    /// the number of signers.
    pub fn validate_signers_and_threshold(signers: &Vec<Address>, threshold: u32) -> (r: Result<
        (),
        Error,
    >)
        ensures
            match signers_error(signers@.len(), threshold) {
                Some(e) => r == Err::<(), Error>(e),
                None => r == Ok::<(), Error>(()),
            },
    {
        if signers.len() == 0 {
            return Err(Error::NoSigners);
        }
        if threshold == 0 {
            return Err(Error::ThresholdZero);
        }
        if threshold as usize > signers.len() {
            return Err(Error::ThresholdTooHigh);
        }
        Ok(())
    }

    /// Sets the signers and the threshold; the first signer becomes the
    /// admin and must authorize the call. Can only be called once.
    pub fn initialize(env: &mut Env, signers: Vec<Address>, threshold: u32) -> (r: Result<
        (),
        Error,
    >)
        requires
            old(env).storage.inv(),
        ensures
            final(env).storage.inv(),
            old(env).storage.admin is Some ==> r == Err::<(), Error>(Error::AlreadyInitialized),
            old(env).storage.admin is None ==> match signers_error(signers@.len(), threshold) {
                Some(e) => r == Err::<(), Error>(e),
                None => r == Ok::<(), Error>(()),
            },
            r is Err ==> *final(env) == *old(env),
            r is Ok ==> {
                &&& final(env).storage.admin == Some(signers@[0])
                &&& final(env).storage.signers->Some_0@ == signers@
                &&& final(env).storage.threshold == Some(threshold)
                &&& final(env).storage.next_proposal_id == old(env).storage.next_proposal_id
                &&& final(env).storage.proposals == old(env).storage.proposals
                &&& final(env).storage.approved == old(env).storage.approved
                &&& final(env).auths@ == old(env).auths@.push(signers@[0])
                &&& final(env).events@ == old(env).events@.push(
                    Event::Initialized(ContractInitialized { signers, threshold }),
                )
                &&& final(env).ledger_sequence == old(env).ledger_sequence
            },
    {
        if storage::has_admin(env) {
            return Err(Error::AlreadyInitialized);
        }
        Self::validate_signers_and_threshold(&signers, threshold)?;
        let admin = signers[0].clone();
        env.require_auth(&admin);
        storage::set_admin(env, &admin);
        storage::set_signers(env, &signers);
        storage::set_threshold(env, threshold);
        events::emit_initialized(env, signers, threshold);
        Ok(())
    }

    /// Creates a proposal for `action_hash` with no approvals and returns its
    /// id. The proposer must be a signer.
    pub fn propose(env: &mut Env, proposer: Address, action_hash: Hash32) -> (r: Result<
        u64,
        Error,
    >)
        requires
            old(env).storage.inv(),
            signer_of(&old(env).storage, proposer@) ==> old(env).storage.next_proposal_id
                < u64::MAX,
        ensures
            final(env).storage.inv(),
            old(env).storage.admin is None ==> r == Err::<u64, Error>(Error::NotInitialized),
            old(env).storage.admin is Some && !signer_of(&old(env).storage, proposer@) ==> r
                == Err::<u64, Error>(Error::NotASigner),
            r is Ok <==> old(env).storage.admin is Some && signer_of(&old(env).storage, proposer@),
            r is Err ==> *final(env) == *old(env),
            r is Ok ==> {
                let id = old(env).storage.next_proposal_id;
                &&& r == Ok::<u64, Error>(id)
                &&& final(env).storage.next_proposal_id == id + 1
                &&& final(env).storage.proposals@ == old(env).storage.proposals@.insert(
                    id,
                    Proposal {
                        action_hash,
                        approval_count: 0,
                        threshold: old(env).storage.threshold->Some_0,
                    },
                )
                &&& final(env).storage.admin == old(env).storage.admin
                &&& final(env).storage.signers == old(env).storage.signers
                &&& final(env).storage.threshold == old(env).storage.threshold
                &&& final(env).storage.approved == old(env).storage.approved
                &&& final(env).auths@ == old(env).auths@.push(proposer)
                &&& final(env).events@ == old(env).events@.push(
                    Event::ProposalCreated(
                        ProposalCreated { proposal_id: id, action_hash, proposer },
                    ),
                )
                &&& final(env).ledger_sequence == old(env).ledger_sequence
            },
            r is Ok <==> (old(env).storage.admin is Some && (old(env).storage.signers matches Some(
                l,
            ) && views(l@).contains(proposer@))),
    {
        if !storage::has_admin(env) {
            return Err(Error::NotInitialized);
        }
        if !storage::is_signer(env, &proposer) {
            return Err(Error::NotASigner);
        }
        let threshold = match storage::get_threshold(env) {
            Some(t) => t,
            None => return Err(Error::NotInitialized),
        };
        env.require_auth(&proposer);
        let proposal_id = storage::next_proposal_id(env);
        let proposal = Proposal { action_hash, approval_count: 0, threshold };
        storage::set_proposal(env, proposal_id, &proposal);
        events::emit_proposal_created(env, proposal_id, action_hash, proposer);
        Ok(proposal_id)
    }

    /// Records `signer`'s approval of proposal `proposal_id`. Each signer may
    /// approve a proposal at most once. The signer's authorization is demanded
    /// once it is known to be a signer, before the proposal is looked up.
    pub fn approve(env: &mut Env, signer: Address, proposal_id: u64) -> (r: Result<(), Error>)
        requires
            old(env).storage.inv(),
            approve_error(&old(env).storage, signer@, proposal_id) is None
                ==> old(env).storage.proposals@[proposal_id].approval_count < u32::MAX,
        ensures
            final(env).storage.inv(),
            match approve_error(&old(env).storage, signer@, proposal_id) {
                Some(e) => {
                    &&& r == Err::<(), Error>(e)
                    &&& if e == Error::ProposalNotFound || e == Error::AlreadyApproved {
                        final(env).demands_auth(*old(env), signer)
                    } else {
                        *final(env) == *old(env)
                    }
                },
                None => {
                    let p = old(env).storage.proposals@[proposal_id];
                    let count = (p.approval_count + 1) as u32;
                    &&& r == Ok::<(), Error>(())
                    &&& final(env).storage.approved@ == old(env).storage.approved@.insert(
                        (proposal_id, signer@),
                        (),
                    )
                    &&& final(env).storage.proposals@ == old(env).storage.proposals@.insert(
                        proposal_id,
                        Proposal {
                            action_hash: p.action_hash,
                            approval_count: count,
                            threshold: p.threshold,
                        },
                    )
                    &&& final(env).storage.admin == old(env).storage.admin
                    &&& final(env).storage.signers == old(env).storage.signers
                    &&& final(env).storage.threshold == old(env).storage.threshold
                    &&& final(env).storage.next_proposal_id == old(env).storage.next_proposal_id
                    &&& final(env).auths@ == old(env).auths@.push(signer)
                    &&& final(env).events@ == old(env).events@.push(
                        Event::ProposalApproved(
                            ProposalApproved {
                                proposal_id,
                                signer,
                                approval_count: count,
                                threshold: old(env).storage.threshold->Some_0,
                            },
                        ),
                    )
                    &&& final(env).ledger_sequence == old(env).ledger_sequence
                },
            },
            r is Ok ==> (old(env).storage.signers matches Some(l) && views(l@).contains(signer@)),
            old(env).storage.admin is Some && !(old(env).storage.signers matches Some(l) && views(
                l@,
            ).contains(signer@)) ==> r == Err::<(), Error>(Error::NotASigner),
    {
        if !storage::has_admin(env) {
            return Err(Error::NotInitialized);
        }
        if !storage::is_signer(env, &signer) {
            return Err(Error::NotASigner);
        }
        env.require_auth(&signer);
        let mut proposal = match storage::get_proposal(env, proposal_id) {
            Some(p) => p,
            None => return Err(Error::ProposalNotFound),
        };
        if storage::has_approved(env, proposal_id, &signer) {
            return Err(Error::AlreadyApproved);
        }
        let current_threshold = match storage::get_threshold(env) {
            Some(t) => t,
            None => 0,
        };
        storage::set_approved(env, proposal_id, &signer);
        proposal.approval_count = proposal.approval_count + 1;
        storage::set_proposal(env, proposal_id, &proposal);
        events::emit_proposal_approved(
            env,
            proposal_id,
            signer,
            proposal.approval_count,
            current_threshold,
        );
        Ok(())
    }

    /// Whether proposal `proposal_id` has reached the threshold it was proposed
    /// under; false for an unknown proposal.
    pub fn is_approved(env: &Env, proposal_id: u64) -> (r: bool)
        requires
            env.storage.inv(),
        ensures
            r == approved_now(&env.storage, proposal_id),
    {
        match storage::get_proposal(env, proposal_id) {
            Some(p) => p.approval_count >= p.threshold,
            None => false,
        }
    }

    /// Replaces the signers and the threshold. Only the admin may call this;
    /// its authorization is demanded before the new configuration is checked.
    /// Open proposals are not affected: they keep their approvals and the
    /// threshold they were proposed under.
    pub fn set_signers(env: &mut Env, admin: Address, signers: Vec<Address>, threshold: u32) -> (r:
        Result<(), Error>)
        requires
            old(env).storage.inv(),
        ensures
            final(env).storage.inv(),
            old(env).storage.admin is None ==> r == Err::<(), Error>(Error::NotInitialized),
            old(env).storage.admin matches Some(a) && a@ != admin@ ==> r == Err::<(), Error>(
                Error::Unauthorized,
            ),
            old(env).storage.admin matches Some(a) && a@ == admin@ ==> match signers_error(
                signers@.len(),
                threshold,
            ) {
                Some(e) => r == Err::<(), Error>(e),
                None => r == Ok::<(), Error>(()),
            },
            r is Err && !(old(env).storage.admin matches Some(a) && a@ == admin@) ==> *final(env)
                == *old(env),
            r is Err && (old(env).storage.admin matches Some(a) && a@ == admin@)
                ==> final(env).demands_auth(*old(env), admin),
            r is Ok ==> {
                &&& final(env).storage.signers->Some_0@ == signers@
                &&& final(env).storage.threshold == Some(threshold)
                &&& final(env).storage.admin == old(env).storage.admin
                &&& final(env).storage.next_proposal_id == old(env).storage.next_proposal_id
                &&& final(env).storage.proposals == old(env).storage.proposals
                &&& final(env).storage.approved == old(env).storage.approved
                &&& final(env).auths@ == old(env).auths@.push(admin)
                &&& final(env).events@ == old(env).events@.push(
                    Event::SignersUpdated(SignersUpdated { signers, threshold }),
                )
                &&& final(env).ledger_sequence == old(env).ledger_sequence
            },
    {
        let stored_admin = match storage::get_admin(env) {
            Some(a) => a,
            None => return Err(Error::NotInitialized),
        };
        if !stored_admin.same_as(&admin) {
            return Err(Error::Unauthorized);
        }
        env.require_auth(&admin);
        Self::validate_signers_and_threshold(&signers, threshold)?;
        storage::set_signers(env, &signers);
        storage::set_threshold(env, threshold);
        events::emit_signers_updated(env, signers, threshold);
        Ok(())
    }

    /// The current signers, once initialized.
    pub fn get_signers(env: &Env) -> (r: Option<Vec<Address>>)
        ensures
            r is Some <==> env.storage.signers is Some,
            r matches Some(v) ==> v@ == env.storage.signers->Some_0@,
    {
        storage::get_signers(env)
    }

    /// The current threshold, once initialized.
    pub fn get_threshold(env: &Env) -> (r: Option<u32>)
        ensures
            r == env.storage.threshold,
    {
        storage::get_threshold(env)
    }
}

} // verus!
