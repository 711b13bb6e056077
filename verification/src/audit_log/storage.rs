use vstd::prelude::*;

use super::Env;
use crate::primitives::{Address, Symbol};
use crate::store::Store;

verus! {

/// An immutable audit entry.
#[derive(Debug, PartialEq, Eq)]
pub struct AuditEntry {
    /// The address that called `record` (an authorized writer).
    pub writer: Address,
    /// The address that performed the audited action.
    pub actor: Address,
    /// The audited action.
    pub action: Symbol,
    /// The address the action was performed on or against.
    pub subject: Address,
    /// Ledger sequence number at the time of recording.
    pub ledger: u32,
}

impl Clone for AuditEntry {
    fn clone(&self) -> (r: Self)
        ensures
            r == *self,
    {
        AuditEntry {
            writer: self.writer.clone(),
            actor: self.actor.clone(),
            action: self.action.clone(),
            subject: self.subject.clone(),
            ledger: self.ledger,
        }
    }
}

/// The audit log's storage: the admin, the entry counter (the next id),
/// the authorized writers and the entries by id.
pub struct Storage {
    pub admin: Option<Address>,
    pub counter: u64,
    pub writers: Store<Address, ()>,
    pub entries: Store<u64, AuditEntry>,
}

impl Storage {
    /// The storage invariant: the entries are exactly those with ids below
    /// the counter.
    pub open spec fn inv(&self) -> bool {
        &&& self.writers.wf()
        &&& self.entries.wf()
        &&& forall|id: u64| #[trigger] self.entries@.contains_key(id) <==> id < self.counter
    }

    /// Empty storage, as before `initialize`.
    pub fn new() -> (r: Storage)
        ensures
            r.inv(),
            r.admin is None,
            r.counter == 0,
            r.writers@ == Map::<Seq<char>, ()>::empty(),
            r.entries@ == Map::<u64, AuditEntry>::empty(),
    {
        Storage { admin: None, counter: 0, writers: Store::new(), entries: Store::new() }
    }
}

pub fn set_admin(env: &mut Env, admin: &Address)
    ensures
        final(env).storage.admin == Some(*admin),
        final(env).storage.counter == old(env).storage.counter,
        final(env).storage.writers == old(env).storage.writers,
        final(env).storage.entries == old(env).storage.entries,
        final(env).events@ == old(env).events@,
        final(env).auths@ == old(env).auths@,
        final(env).ledger_sequence == old(env).ledger_sequence,
{
    env.storage.admin = Some(admin.clone());
}

pub fn get_admin(env: &Env) -> (r: Option<Address>)
    ensures
        r == env.storage.admin,
{
    match &env.storage.admin {
        Some(a) => Some(a.clone()),
        None => None,
    }
}

pub fn has_admin(env: &Env) -> (r: bool)
    ensures
        r == env.storage.admin is Some,
{
    env.storage.admin.is_some()
}

/// Marks `writer` as authorized to call `record`.
pub fn authorize_writer(env: &mut Env, writer: &Address)
    requires
        old(env).storage.writers.wf(),
    ensures
        final(env).storage.writers.wf(),
        final(env).storage.writers@ == old(env).storage.writers@.insert(writer@, ()),
        final(env).storage.admin == old(env).storage.admin,
        final(env).storage.counter == old(env).storage.counter,
        final(env).storage.entries == old(env).storage.entries,
        final(env).events@ == old(env).events@,
        final(env).auths@ == old(env).auths@,
        final(env).ledger_sequence == old(env).ledger_sequence,
{
    env.storage.writers.insert(writer.clone(), ());
}

/// Whether `writer` has been authorized.
pub fn is_authorized_writer(env: &Env, writer: &Address) -> (r: bool)
    requires
        env.storage.writers.wf(),
    ensures
        r == env.storage.writers@.contains_key(writer@),
{
    env.storage.writers.contains_key(writer)
}

/// The id the next entry will receive.
pub fn get_counter(env: &Env) -> (r: u64)
    ensures
        r == env.storage.counter,
{
    env.storage.counter
}

/// Advances the counter and returns the id just consumed.
pub fn increment_counter(env: &mut Env) -> (r: u64)
    requires
        old(env).storage.counter < u64::MAX,
    ensures
        r == old(env).storage.counter,
        final(env).storage.counter == old(env).storage.counter + 1,
        final(env).storage.admin == old(env).storage.admin,
        final(env).storage.writers == old(env).storage.writers,
        final(env).storage.entries == old(env).storage.entries,
        final(env).events@ == old(env).events@,
        final(env).auths@ == old(env).auths@,
        final(env).ledger_sequence == old(env).ledger_sequence,
{
    let id = get_counter(env);
    env.storage.counter = id + 1;
    id
}

/// Stores an audit entry under `id`.
pub fn set_entry(env: &mut Env, id: u64, entry: &AuditEntry)
    requires
        old(env).storage.entries.wf(),
    ensures
        final(env).storage.entries.wf(),
        final(env).storage.entries@ == old(env).storage.entries@.insert(id, *entry),
        final(env).storage.admin == old(env).storage.admin,
        final(env).storage.counter == old(env).storage.counter,
        final(env).storage.writers == old(env).storage.writers,
        final(env).events@ == old(env).events@,
        final(env).auths@ == old(env).auths@,
        final(env).ledger_sequence == old(env).ledger_sequence,
{
    env.storage.entries.insert(id, entry.clone());
}

/// The entry stored under `id`, if any.
pub fn get_entry(env: &Env, id: u64) -> (r: Option<AuditEntry>)
    requires
        env.storage.entries.wf(),
    ensures
        r == (if env.storage.entries@.contains_key(id) {
            Some(env.storage.entries@[id])
        } else {
            None
        }),
{
    match env.storage.entries.get(&id) {
        Some(e) => Some(e.clone()),
        None => None,
    }
}

} // verus!
