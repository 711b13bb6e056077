use vstd::prelude::*;

use super::Env;
use crate::address_list::{contains_address, copy_list, views};
use crate::primitives::{Address, Hash32};
use crate::store::Store;

verus! {

/// A proposal: an opaque commitment to an off-chain action, the number of
/// distinct signers that approved it, and the threshold in force when it was
/// proposed, by which it is judged.
#[derive(Clone, Copy, Debug, PartialEq, Eq)]
pub struct Proposal {
    pub action_hash: Hash32,
    pub approval_count: u32,
    pub threshold: u32,
}

/// The multisig's storage: admin, signers and threshold (instance entries),
/// the proposal counter, the proposals, and the `(proposal, signer)`
/// approvals.
pub struct Storage {
    pub admin: Option<Address>,
    pub signers: Option<Vec<Address>>,
    pub threshold: Option<u32>,
    pub next_proposal_id: u64,
    pub proposals: Store<u64, Proposal>,
    pub approved: Store<(u64, Address), ()>,
}

impl Storage {
    /// The storage invariant: admin, signers and threshold are set together,
    /// with at least one signer and a threshold between 1 and the number of
    /// signers; proposal ids are below the counter.
    pub open spec fn inv(&self) -> bool {
        &&& self.proposals.wf()
        &&& self.approved.wf()
        &&& (self.admin is Some <==> self.signers is Some)
        &&& (self.admin is Some <==> self.threshold is Some)
        &&& (self.signers matches Some(s) ==> s@.len() > 0)
        &&& (self.signers matches Some(s) ==> self.threshold matches Some(t) && 1 <= t <= s@.len())
        &&& forall|id: u64| #[trigger] self.proposals@.contains_key(id) ==> id < self.next_proposal_id
    }

    /// Empty storage, as before `initialize`.
    pub fn new() -> (r: Storage)
        ensures
            r.inv(),
            r.admin is None,
            r.signers is None,
            r.threshold is None,
            r.next_proposal_id == 0,
            r.proposals@ == Map::<u64, Proposal>::empty(),
            r.approved@ == Map::<(u64, Seq<char>), ()>::empty(),
    {
        Storage {
            admin: None,
            signers: None,
            threshold: None,
            next_proposal_id: 0,
            proposals: Store::new(),
            approved: Store::new(),
        }
    }
}

/// Whether `a` is a registered signer.
pub open spec fn signer_of(s: &Storage, a: Seq<char>) -> bool {
    s.signers matches Some(l) && views(l@).contains(a)
}

pub fn set_admin(env: &mut Env, admin: &Address)
    ensures
        final(env).storage.admin == Some(*admin),
        final(env).storage.signers == old(env).storage.signers,
        final(env).storage.threshold == old(env).storage.threshold,
        final(env).storage.next_proposal_id == old(env).storage.next_proposal_id,
        final(env).storage.proposals == old(env).storage.proposals,
        final(env).storage.approved == old(env).storage.approved,
        final(env).events@ == old(env).events@,
        final(env).auths@ == old(env).auths@,
        final(env).ledger_sequence == old(env).ledger_sequence,
{
    env.storage.admin = Some(admin.clone());
}

pub fn get_admin(env: &Env) -> (r: Option<Address>)
    ensures
        r == env.storage.admin,
{
    match &env.storage.admin {
        Some(a) => Some(a.clone()),
        None => None,
    }
}

pub fn has_admin(env: &Env) -> (r: bool)
    ensures
        r == env.storage.admin is Some,
{
    env.storage.admin.is_some()
}

pub fn set_signers(env: &mut Env, signers: &Vec<Address>)
    ensures
        final(env).storage.signers matches Some(s) && s@ == signers@,
        final(env).storage.admin == old(env).storage.admin,
        final(env).storage.threshold == old(env).storage.threshold,
        final(env).storage.next_proposal_id == old(env).storage.next_proposal_id,
        final(env).storage.proposals == old(env).storage.proposals,
        final(env).storage.approved == old(env).storage.approved,
        final(env).events@ == old(env).events@,
        final(env).auths@ == old(env).auths@,
        final(env).ledger_sequence == old(env).ledger_sequence,
{
    env.storage.signers = Some(copy_list(signers));
}

pub fn get_signers(env: &Env) -> (r: Option<Vec<Address>>)
    ensures
        r is Some <==> env.storage.signers is Some,
        r matches Some(v) ==> v@ == env.storage.signers->Some_0@,
{
    match &env.storage.signers {
        Some(s) => Some(copy_list(s)),
        None => None,
    }
}

/// Whether `address` is a registered signer.
pub fn is_signer(env: &Env, address: &Address) -> (r: bool)
    ensures
        r == signer_of(&env.storage, address@),
{
    match &env.storage.signers {
        Some(s) => contains_address(s, address),
        None => false,
    }
}

pub fn set_threshold(env: &mut Env, threshold: u32)
    ensures
        final(env).storage.threshold == Some(threshold),
        final(env).storage.admin == old(env).storage.admin,
        final(env).storage.signers == old(env).storage.signers,
        final(env).storage.next_proposal_id == old(env).storage.next_proposal_id,
        final(env).storage.proposals == old(env).storage.proposals,
        final(env).storage.approved == old(env).storage.approved,
        final(env).events@ == old(env).events@,
        final(env).auths@ == old(env).auths@,
        final(env).ledger_sequence == old(env).ledger_sequence,
{
    env.storage.threshold = Some(threshold);
}

pub fn get_threshold(env: &Env) -> (r: Option<u32>)
    ensures
        r == env.storage.threshold,
{
    env.storage.threshold
}

/// Takes the next proposal id and advances the counter.
pub fn next_proposal_id(env: &mut Env) -> (r: u64)
    requires
        old(env).storage.next_proposal_id < u64::MAX,
    ensures
        r == old(env).storage.next_proposal_id,
        final(env).storage.next_proposal_id == r + 1,
        final(env).storage.admin == old(env).storage.admin,
        final(env).storage.signers == old(env).storage.signers,
        final(env).storage.threshold == old(env).storage.threshold,
        final(env).storage.proposals == old(env).storage.proposals,
        final(env).storage.approved == old(env).storage.approved,
        final(env).events@ == old(env).events@,
        final(env).auths@ == old(env).auths@,
        final(env).ledger_sequence == old(env).ledger_sequence,
{
    let current = env.storage.next_proposal_id;
    env.storage.next_proposal_id = current + 1;
    current
}

pub fn set_proposal(env: &mut Env, proposal_id: u64, proposal: &Proposal)
    requires
        old(env).storage.proposals.wf(),
    ensures
        final(env).storage.proposals.wf(),
        final(env).storage.proposals@ == old(env).storage.proposals@.insert(proposal_id, *proposal),
        final(env).storage.admin == old(env).storage.admin,
        final(env).storage.signers == old(env).storage.signers,
        final(env).storage.threshold == old(env).storage.threshold,
        final(env).storage.next_proposal_id == old(env).storage.next_proposal_id,
        final(env).storage.approved == old(env).storage.approved,
        final(env).events@ == old(env).events@,
        final(env).auths@ == old(env).auths@,
        final(env).ledger_sequence == old(env).ledger_sequence,
{
    env.storage.proposals.insert(proposal_id, *proposal);
}

pub fn get_proposal(env: &Env, proposal_id: u64) -> (r: Option<Proposal>)
    requires
        env.storage.proposals.wf(),
    ensures
        r == (if env.storage.proposals@.contains_key(proposal_id) {
            Some(env.storage.proposals@[proposal_id])
        } else {
            None
        }),
{
    match env.storage.proposals.get(&proposal_id) {
        Some(p) => Some(*p),
        None => None,
    }
}

pub fn set_approved(env: &mut Env, proposal_id: u64, signer: &Address)
    requires
        old(env).storage.approved.wf(),
    ensures
        final(env).storage.approved.wf(),
        final(env).storage.approved@ == old(env).storage.approved@.insert((proposal_id, signer@), ()),
        final(env).storage.admin == old(env).storage.admin,
        final(env).storage.signers == old(env).storage.signers,
        final(env).storage.threshold == old(env).storage.threshold,
        final(env).storage.next_proposal_id == old(env).storage.next_proposal_id,
        final(env).storage.proposals == old(env).storage.proposals,
        final(env).events@ == old(env).events@,
        final(env).auths@ == old(env).auths@,
        final(env).ledger_sequence == old(env).ledger_sequence,
{
    env.storage.approved.insert((proposal_id, signer.clone()), ());
}

pub fn has_approved(env: &Env, proposal_id: u64, signer: &Address) -> (r: bool)
    requires
        env.storage.approved.wf(),
    ensures
        r == env.storage.approved@.contains_key((proposal_id, signer@)),
{
    env.storage.approved.contains_key(&(proposal_id, signer.clone()))
}

} // verus!
