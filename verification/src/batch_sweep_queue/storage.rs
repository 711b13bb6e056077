use vstd::prelude::*;

use super::Env;
use crate::primitives::Address;
use crate::store::{Store, StoreKey};

verus! {

/// The key under which one request is stored.
#[derive(Clone, Copy, Debug, PartialEq, Eq)]
pub struct EntryKey {
    pub id: u64,
}

impl View for EntryKey {
    type V = u64;

    open spec fn view(&self) -> u64 {
        self.id
    }
}

impl StoreKey for EntryKey {
    fn key_eq(&self, other: &Self) -> (r: bool) {
        self.id == other.id
    }

    fn key_clone(&self) -> (r: Self) {
        EntryKey { id: self.id }
    }
}

/// A single sweep request.
#[derive(Debug, PartialEq, Eq)]
pub struct QueueEntry {
    pub account: Address,
    pub destination: Address,
}

impl Clone for QueueEntry {
    fn clone(&self) -> (r: Self)
        ensures
            r == *self,
    {
        QueueEntry { account: self.account.clone(), destination: self.destination.clone() }
    }
}

/// The queue's storage: the admin, the next id to assign, the pending ids in
/// insertion order, and the request stored under each pending id.
pub struct Storage {
    pub admin: Option<Address>,
    pub next_id: u64,
    pub pending_ids: Vec<u64>,
    pub entries: Store<EntryKey, QueueEntry>,
}

/// `s` is strictly increasing.
pub open spec fn strictly_increasing(s: Seq<u64>) -> bool {
    forall|i: int, j: int| 0 <= i < j < s.len() ==> s[i] < s[j]
}

impl Storage {
    /// The storage invariant: pending ids are strictly increasing (hence
    /// distinct and in FIFO order), all below the next id, fit a ledger
    /// vector's `u32` length, and are exactly the ids that hold a request.
    pub open spec fn inv(&self) -> bool {
        &&& self.entries.wf()
        &&& strictly_increasing(self.pending_ids@)
        &&& forall|i: int| 0 <= i < self.pending_ids@.len() ==> self.pending_ids@[i] < self.next_id
        &&& self.pending_ids@.len() <= u32::MAX
        &&& forall|id: u64| #[trigger]
            self.entries@.contains_key(id) <==> self.pending_ids@.contains(id)
    }

    /// Empty storage, as before `initialize`.
    pub fn new() -> (r: Storage)
        ensures
            r.inv(),
            r.admin is None,
            r.next_id == 0,
            r.pending_ids@ == Seq::<u64>::empty(),
            r.entries@ == Map::<u64, QueueEntry>::empty(),
    {
        Storage { admin: None, next_id: 0, pending_ids: Vec::new(), entries: Store::new() }
    }
}

pub fn set_admin(env: &mut Env, admin: &Address)
    ensures
        final(env).storage.admin == Some(*admin),
        final(env).storage.next_id == old(env).storage.next_id,
        final(env).storage.pending_ids == old(env).storage.pending_ids,
        final(env).storage.entries == old(env).storage.entries,
        final(env).events@ == old(env).events@,
        final(env).auths@ == old(env).auths@,
        final(env).ledger_sequence == old(env).ledger_sequence,
{
    env.storage.admin = Some(admin.clone());
}

pub fn get_admin(env: &Env) -> (r: Option<Address>)
    ensures
        r == env.storage.admin,
{
    match &env.storage.admin {
        Some(a) => Some(a.clone()),
        None => None,
    }
}

pub fn has_admin(env: &Env) -> (r: bool)
    ensures
        r == env.storage.admin is Some,
{
    env.storage.admin.is_some()
}

pub fn get_next_id(env: &Env) -> (r: u64)
    ensures
        r == env.storage.next_id,
{
    env.storage.next_id
}

pub fn set_next_id(env: &mut Env, id: u64)
    ensures
        final(env).storage.next_id == id,
        final(env).storage.admin == old(env).storage.admin,
        final(env).storage.pending_ids == old(env).storage.pending_ids,
        final(env).storage.entries == old(env).storage.entries,
        final(env).events@ == old(env).events@,
        final(env).auths@ == old(env).auths@,
        final(env).ledger_sequence == old(env).ledger_sequence,
{
    env.storage.next_id = id;
}

pub fn get_pending_ids(env: &Env) -> (r: Vec<u64>)
    ensures
        r@ == env.storage.pending_ids@,
{
    let mut r: Vec<u64> = Vec::new();
    let mut i: usize = 0;
    while i < env.storage.pending_ids.len()
        invariant
            i <= env.storage.pending_ids@.len(),
            r@ == env.storage.pending_ids@.take(i as int),
        decreases env.storage.pending_ids@.len() - i,
    {
        r.push(env.storage.pending_ids[i]);
        i = i + 1;
        assert(r@ =~= env.storage.pending_ids@.take(i as int));
    }
    assert(r@ =~= env.storage.pending_ids@);
    r
}

pub fn set_pending_ids(env: &mut Env, ids: Vec<u64>)
    ensures
        final(env).storage.pending_ids@ == ids@,
        final(env).storage.admin == old(env).storage.admin,
        final(env).storage.next_id == old(env).storage.next_id,
        final(env).storage.entries == old(env).storage.entries,
        final(env).events@ == old(env).events@,
        final(env).auths@ == old(env).auths@,
        final(env).ledger_sequence == old(env).ledger_sequence,
{
    env.storage.pending_ids = ids;
}

pub fn set_entry(env: &mut Env, id: u64, entry: &QueueEntry)
    requires
        old(env).storage.entries.wf(),
    ensures
        final(env).storage.entries.wf(),
        final(env).storage.entries@ == old(env).storage.entries@.insert(id, *entry),
        final(env).storage.admin == old(env).storage.admin,
        final(env).storage.next_id == old(env).storage.next_id,
        final(env).storage.pending_ids == old(env).storage.pending_ids,
        final(env).events@ == old(env).events@,
        final(env).auths@ == old(env).auths@,
        final(env).ledger_sequence == old(env).ledger_sequence,
{
    env.storage.entries.insert(EntryKey { id }, entry.clone());
}

pub fn get_entry(env: &Env, id: u64) -> (r: Option<QueueEntry>)
    requires
        env.storage.entries.wf(),
    ensures
        r == (if env.storage.entries@.contains_key(id) {
            Some(env.storage.entries@[id])
        } else {
            None
        }),
{
    match env.storage.entries.get(&EntryKey { id }) {
        Some(e) => Some(e.clone()),
        None => None,
    }
}

pub fn remove_entry(env: &mut Env, id: u64)
    requires
        old(env).storage.entries.wf(),
    ensures
        final(env).storage.entries.wf(),
        final(env).storage.entries@ == old(env).storage.entries@.remove(id),
        final(env).storage.admin == old(env).storage.admin,
        final(env).storage.next_id == old(env).storage.next_id,
        final(env).storage.pending_ids == old(env).storage.pending_ids,
        final(env).events@ == old(env).events@,
        final(env).auths@ == old(env).auths@,
        final(env).ledger_sequence == old(env).ledger_sequence,
{
    env.storage.entries.remove(&EntryKey { id });
}

} // verus!
