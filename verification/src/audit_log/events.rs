use vstd::prelude::*;

use super::Env;
use crate::primitives::{Address, Symbol};

verus! {

/// Published when the audit log is initialized.
#[derive(Clone, Debug, PartialEq, Eq)]
pub struct Initialized {
    pub admin: Address,
}

/// Published when a writer is authorized.
#[derive(Clone, Debug, PartialEq, Eq)]
pub struct WriterAuthorized {
    pub writer: Address,
    pub admin: Address,
}

/// Published when an audit entry is recorded.
#[derive(Clone, Debug, PartialEq, Eq)]
pub struct EntryRecorded {
    /// Sequential entry id assigned at record time.
    pub id: u64,
    /// The address that called `record`.
    pub writer: Address,
    /// The address that performed the audited action.
    pub actor: Address,
    /// The audited action.
    pub action: Symbol,
    /// The address the action was performed on or against.
    pub subject: Address,
    /// The ledger sequence at which the entry was recorded.
    pub ledger: u32,
}

/// The events of the audit log, one variant per topic.
#[derive(Clone, Debug, PartialEq, Eq)]
pub enum Event {
    /// Topic `init`.
    Initialized(Initialized),
    /// Topic `writer`.
    WriterAuthorized(WriterAuthorized),
    /// Topic `recorded`.
    EntryRecorded(EntryRecorded),
}

pub fn emit_initialized(env: &mut Env, admin: Address)
    ensures
        final(env).publishes(*old(env), Event::Initialized(Initialized { admin })),
{
    env.publish(Event::Initialized(Initialized { admin }));
}

pub fn emit_writer_authorized(env: &mut Env, writer: Address, admin: Address)
    ensures
        final(env).publishes(*old(env), Event::WriterAuthorized(WriterAuthorized { writer, admin })),
{
    env.publish(Event::WriterAuthorized(WriterAuthorized { writer, admin }));
}

pub fn emit_entry_recorded(
    env: &mut Env,
    id: u64,
    writer: Address,
    actor: Address,
    action: Symbol,
    subject: Address,
    ledger: u32,
)
    ensures
        final(env).publishes(
            *old(env),
            Event::EntryRecorded(EntryRecorded { id, writer, actor, action, subject, ledger }),
        ),
{
    env.publish(Event::EntryRecorded(EntryRecorded { id, writer, actor, action, subject, ledger }));
}

} // verus!
