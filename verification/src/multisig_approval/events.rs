use vstd::prelude::*;

use super::Env;
use crate::primitives::{Address, Hash32};

verus! {

/// Published when the multisig is initialized.
#[derive(Clone, Debug, PartialEq, Eq)]
pub struct ContractInitialized {
    pub signers: Vec<Address>,
    pub threshold: u32,
}

/// Published when a proposal is created.
#[derive(Clone, Debug, PartialEq, Eq)]
pub struct ProposalCreated {
    pub proposal_id: u64,
    pub action_hash: Hash32,
    pub proposer: Address,
}

/// Published when a signer approves a proposal; `threshold` is the threshold
/// in force at the time of the approval.
#[derive(Clone, Debug, PartialEq, Eq)]
pub struct ProposalApproved {
    pub proposal_id: u64,
    pub signer: Address,
    pub approval_count: u32,
    pub threshold: u32,
}

/// Published when the signer set is replaced.
#[derive(Clone, Debug, PartialEq, Eq)]
pub struct SignersUpdated {
    pub signers: Vec<Address>,
    pub threshold: u32,
}

/// The events of the multisig, one variant per topic.
#[derive(Clone, Debug, PartialEq, Eq)]
pub enum Event {
    /// Topic `init`.
    Initialized(ContractInitialized),
    /// Topic `proposed`.
    ProposalCreated(ProposalCreated),
    /// Topic `approved`.
    ProposalApproved(ProposalApproved),
    /// Topic `signers`.
    SignersUpdated(SignersUpdated),
}

pub fn emit_initialized(env: &mut Env, signers: Vec<Address>, threshold: u32)
    ensures
        final(env).publishes(*old(env), Event::Initialized(ContractInitialized { signers, threshold })),
{
    env.publish(Event::Initialized(ContractInitialized { signers, threshold }));
}

pub fn emit_proposal_created(env: &mut Env, proposal_id: u64, action_hash: Hash32, proposer: Address)
    ensures
        final(env).publishes(
            *old(env),
            Event::ProposalCreated(ProposalCreated { proposal_id, action_hash, proposer }),
        ),
{
    env.publish(Event::ProposalCreated(ProposalCreated { proposal_id, action_hash, proposer }));
}

pub fn emit_proposal_approved(
    env: &mut Env,
    proposal_id: u64,
    signer: Address,
    approval_count: u32,
    threshold: u32,
)
    ensures
        final(env).publishes(
            *old(env),
            Event::ProposalApproved(
                ProposalApproved { proposal_id, signer, approval_count, threshold },
            ),
        ),
{
    env.publish(
        Event::ProposalApproved(ProposalApproved { proposal_id, signer, approval_count, threshold }),
    );
}

pub fn emit_signers_updated(env: &mut Env, signers: Vec<Address>, threshold: u32)
    ensures
        final(env).publishes(*old(env), Event::SignersUpdated(SignersUpdated { signers, threshold })),
{
    env.publish(Event::SignersUpdated(SignersUpdated { signers, threshold }));
}

} // verus!
