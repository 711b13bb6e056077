pub mod errors;
pub mod events;
pub mod storage;

use vstd::prelude::*;

use crate::primitives::{Address, Symbol};
pub use errors::Error;
pub use events::{EntryRecorded, Event, Initialized, WriterAuthorized};
pub use storage::{AuditEntry, Storage};

verus! {

/// The ledger environment of an audit log.
pub type Env = crate::env::Env<Storage, Event>;

/// An append-only, admin-gated audit log of structured entries.
pub struct AuditLog;

/// Recording an entry leaves every earlier entry as it was: entries are
/// immutable once written.
pub proof fn lemma_record_keeps_entries(
    before: Map<u64, AuditEntry>,
    counter: u64,
    entry: AuditEntry,
    id: u64,
)
    requires
        forall|i: u64| #[trigger] before.contains_key(i) <==> i < counter,
        before.contains_key(id),
    ensures
        before.insert(counter, entry).contains_key(id),
        before.insert(counter, entry)[id] == before[id],
{
}

impl AuditLog {
    /// Sets the admin. Must be called exactly once.
    pub fn initialize(env: &mut Env, admin: Address) -> (r: Result<(), Error>)
        requires
            old(env).storage.inv(),
        ensures
            final(env).storage.inv(),
            old(env).storage.admin is Some <==> r == Err::<(), Error>(Error::AlreadyInitialized),
            r is Ok <==> old(env).storage.admin is None,
            r is Err ==> *final(env) == *old(env),
            r is Ok ==> {
                &&& final(env).storage.admin == Some(admin)
                &&& final(env).storage.counter == old(env).storage.counter
                &&& final(env).storage.writers == old(env).storage.writers
                &&& final(env).storage.entries == old(env).storage.entries
                &&& final(env).auths@ == old(env).auths@.push(admin)
                &&& final(env).events@ == old(env).events@.push(
                    Event::Initialized(Initialized { admin }),
                )
                &&& final(env).ledger_sequence == old(env).ledger_sequence
            },
    {
        if storage::has_admin(env) {
            return Err(Error::AlreadyInitialized);
        }
        env.require_auth(&admin);
        storage::set_admin(env, &admin);
        events::emit_initialized(env, admin);
        Ok(())
    }

    /// Authorizes `writer` to call `record`. Only the admin may call this;
    /// authorizing a writer twice changes nothing further.
    pub fn authorize_writer(env: &mut Env, admin: Address, writer: Address) -> (r: Result<
        (),
        Error,
    >)
        requires
            old(env).storage.inv(),
        ensures
            final(env).storage.inv(),
            old(env).storage.admin is None ==> r == Err::<(), Error>(Error::NotInitialized),
            old(env).storage.admin matches Some(a) && a@ != admin@ ==> r == Err::<(), Error>(
                Error::Unauthorized,
            ),
            r is Ok <==> (old(env).storage.admin matches Some(a) && a@ == admin@),
            r is Err ==> *final(env) == *old(env),
            r is Ok ==> {
                &&& final(env).storage.writers@ == old(env).storage.writers@.insert(writer@, ())
                &&& final(env).storage.admin == old(env).storage.admin
                &&& final(env).storage.counter == old(env).storage.counter
                &&& final(env).storage.entries == old(env).storage.entries
                &&& final(env).auths@ == old(env).auths@.push(admin)
                &&& final(env).events@ == old(env).events@.push(
                    Event::WriterAuthorized(WriterAuthorized { writer, admin }),
                )
                &&& final(env).ledger_sequence == old(env).ledger_sequence
            },
    {
        let stored_admin = match storage::get_admin(env) {
            Some(a) => a,
            None => return Err(Error::NotInitialized),
        };
        if !admin.same_as(&stored_admin) {
            return Err(Error::Unauthorized);
        }
        env.require_auth(&admin);
        storage::authorize_writer(env, &writer);
        events::emit_writer_authorized(env, writer, admin);
        Ok(())
    }

    /// Appends an entry and returns its id. Ids count up from 0.
    pub fn record(env: &mut Env, writer: Address, actor: Address, action: Symbol, subject: Address) -> (r:
        Result<u64, Error>)
        requires
            old(env).storage.inv(),
            old(env).storage.admin is Some && old(env).storage.writers@.contains_key(writer@)
                ==> old(env).storage.counter < u64::MAX,
        ensures
            final(env).storage.inv(),
            old(env).storage.admin is None ==> r == Err::<u64, Error>(Error::NotInitialized),
            old(env).storage.admin is Some && !old(env).storage.writers@.contains_key(writer@)
                ==> r == Err::<u64, Error>(Error::UnauthorizedWriter),
            r is Ok <==> old(env).storage.admin is Some && old(env).storage.writers@.contains_key(
                writer@,
            ),
            r is Err ==> *final(env) == *old(env),
            r is Ok ==> {
                let id = old(env).storage.counter;
                let ledger = old(env).ledger_sequence;
                &&& r == Ok::<u64, Error>(id)
                &&& final(env).storage.counter == id + 1
                &&& final(env).storage.entries@ == old(env).storage.entries@.insert(
                    id,
                    AuditEntry { writer, actor, action, subject, ledger },
                )
                &&& final(env).storage.admin == old(env).storage.admin
                &&& final(env).storage.writers == old(env).storage.writers
                &&& final(env).auths@ == old(env).auths@.push(writer)
                &&& final(env).events@ == old(env).events@.push(
                    Event::EntryRecorded(
                        EntryRecorded { id, writer, actor, action, subject, ledger },
                    ),
                )
                &&& final(env).ledger_sequence == ledger
            },
    {
        if !storage::has_admin(env) {
            return Err(Error::NotInitialized);
        }
        if !storage::is_authorized_writer(env, &writer) {
            return Err(Error::UnauthorizedWriter);
        }
        env.require_auth(&writer);
        let ledger = env.sequence();
        let id = storage::increment_counter(env);
        let entry = AuditEntry {
            writer: writer.clone(),
            actor: actor.clone(),
            action: action.clone(),
            subject: subject.clone(),
            ledger,
        };
        storage::set_entry(env, id, &entry);
        events::emit_entry_recorded(env, id, writer, actor, action, subject, ledger);
        Ok(id)
    }

    /// The entry with id `id`, if it exists (exactly when `id < count()`).
    pub fn get(env: &Env, id: u64) -> (r: Option<AuditEntry>)
        requires
            env.storage.inv(),
        ensures
            r is Some <==> id < env.storage.counter,
            r matches Some(e) ==> e == env.storage.entries@[id],
    {
        storage::get_entry(env, id)
    }

    /// The number of entries recorded so far, which is the next id.
    pub fn count(env: &Env) -> (r: u64)
        ensures
            r == env.storage.counter,
    {
        storage::get_counter(env)
    }

    /// The admin, once initialized.
    pub fn get_admin(env: &Env) -> (r: Option<Address>)
        ensures
            r == env.storage.admin,
    {
        storage::get_admin(env)
    }
}

} // verus!
