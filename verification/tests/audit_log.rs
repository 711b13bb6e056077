use bridgelet_contracts::audit_log::{AuditLog, EntryRecorded, Env, Error, Event, Storage};
use bridgelet_contracts::primitives::{Address, Symbol};

fn fresh() -> Env {
    Env::with_storage(Storage::new())
}

fn setup() -> (Env, Address) {
    let mut env = fresh();
    let admin = Address::new("GADMIN");
    AuditLog::initialize(&mut env, admin.clone()).unwrap();
    (env, admin)
}

fn setup_with_writer() -> (Env, Address, Address) {
    let (mut env, admin) = setup();
    let writer = Address::new("GWRITER");
    AuditLog::authorize_writer(&mut env, admin.clone(), writer.clone()).unwrap();
    (env, admin, writer)
}

fn sym(s: &str) -> Symbol {
    Symbol::new(s)
}

#[test]
fn audit_initialize_succeeds_once() {
    let mut env = fresh();
    let admin = Address::new("GADMIN");
    let result = AuditLog::initialize(&mut env, admin.clone());
    assert!(result.is_ok());
    assert_eq!(AuditLog::get_admin(&env), Some(admin));
}

#[test]
fn audit_initialize_twice_returns_error() {
    let (mut env, admin) = setup();
    let result = AuditLog::initialize(&mut env, admin);
    assert_eq!(result.unwrap_err(), Error::AlreadyInitialized);
}

#[test]
fn authorize_writer_succeeds() {
    let (mut env, admin) = setup();
    let writer = Address::new("GWRITER");
    let result = AuditLog::authorize_writer(&mut env, admin, writer);
    assert!(result.is_ok());
}

#[test]
fn authorize_writer_non_admin_returns_unauthorized() {
    let (mut env, _admin) = setup();
    let intruder = Address::new("GINTRUDER");
    let writer = Address::new("GWRITER");
    let result = AuditLog::authorize_writer(&mut env, intruder, writer);
    assert_eq!(result.unwrap_err(), Error::Unauthorized);
}

#[test]
fn authorize_writer_idempotent() {
    let (mut env, admin) = setup();
    let writer = Address::new("GWRITER");
    AuditLog::authorize_writer(&mut env, admin.clone(), writer.clone()).unwrap();
    let result = AuditLog::authorize_writer(&mut env, admin, writer);
    assert!(result.is_ok());
}

#[test]
fn record_unauthorized_writer_rejected() {
    let (mut env, _admin) = setup();
    let unauthorized = Address::new("GUNAUTH");
    let actor = Address::new("GACTOR");
    let subject = Address::new("GSUBJECT");
    let result = AuditLog::record(&mut env, unauthorized, actor, sym("sweep"), subject);
    assert_eq!(result.unwrap_err(), Error::UnauthorizedWriter);
}

#[test]
fn record_sequential_id_assignment() {
    let (mut env, _admin, writer) = setup_with_writer();
    let actor = Address::new("GACTOR");
    let subject = Address::new("GSUBJECT");
    let id0 =
        AuditLog::record(&mut env, writer.clone(), actor.clone(), sym("sweep"), subject.clone())
            .unwrap();
    let id1 =
        AuditLog::record(&mut env, writer.clone(), actor.clone(), sym("expire"), subject.clone())
            .unwrap();
    let id2 = AuditLog::record(&mut env, writer, actor, sym("init"), subject).unwrap();
    assert_eq!(id0, 0);
    assert_eq!(id1, 1);
    assert_eq!(id2, 2);
}

#[test]
fn record_increments_count() {
    let (mut env, _admin, writer) = setup_with_writer();
    let actor = Address::new("GACTOR");
    let subject = Address::new("GSUBJECT");
    assert_eq!(AuditLog::count(&env), 0);
    AuditLog::record(&mut env, writer.clone(), actor.clone(), sym("sweep"), subject.clone())
        .unwrap();
    assert_eq!(AuditLog::count(&env), 1);
    AuditLog::record(&mut env, writer, actor, sym("expire"), subject).unwrap();
    assert_eq!(AuditLog::count(&env), 2);
}

#[test]
fn get_returns_entry_after_record() {
    let (mut env, _admin, writer) = setup_with_writer();
    let actor = Address::new("GACTOR");
    let subject = Address::new("GSUBJECT");
    let id =
        AuditLog::record(&mut env, writer.clone(), actor.clone(), sym("sweep"), subject.clone())
            .unwrap();
    let entry = AuditLog::get(&env, id).expect("entry must exist");
    assert_eq!(entry.writer, writer);
    assert_eq!(entry.actor, actor);
    assert_eq!(entry.action, sym("sweep"));
    assert_eq!(entry.subject, subject);
}

#[test]
fn get_returns_none_for_missing_id() {
    let (env, _admin) = setup();
    assert_eq!(AuditLog::get(&env, 99u64), None);
}

#[test]
fn entries_are_immutable_once_written() {
    let (mut env, _admin, writer) = setup_with_writer();
    let actor = Address::new("GACTOR");
    let subject = Address::new("GSUBJECT");
    let id =
        AuditLog::record(&mut env, writer.clone(), actor.clone(), sym("sweep"), subject.clone())
            .unwrap();
    let actor2 = Address::new("GACTOR2");
    let subject2 = Address::new("GSUBJECT2");
    AuditLog::record(&mut env, writer, actor2, sym("expire"), subject2).unwrap();
    let entry = AuditLog::get(&env, id).unwrap();
    assert_eq!(entry.actor, actor);
    assert_eq!(entry.subject, subject);
    assert_eq!(entry.action, sym("sweep"));
}

#[test]
fn count_starts_at_zero() {
    let (env, _admin) = setup();
    assert_eq!(AuditLog::count(&env), 0);
}

#[test]
fn two_instances_are_independent() {
    let mut env_a = fresh();
    let mut env_b = fresh();
    let admin_a = Address::new("GADMINA");
    let admin_b = Address::new("GADMINB");
    AuditLog::initialize(&mut env_a, admin_a.clone()).unwrap();
    AuditLog::initialize(&mut env_b, admin_b).unwrap();
    let writer_a = Address::new("GWRITERA");
    AuditLog::authorize_writer(&mut env_a, admin_a, writer_a.clone()).unwrap();
    let actor = Address::new("GACTOR");
    let subject = Address::new("GSUBJECT");
    AuditLog::record(&mut env_a, writer_a, actor, sym("sweep"), subject).unwrap();
    assert_eq!(AuditLog::count(&env_b), 0);
    assert_eq!(AuditLog::count(&env_a), 1);
}

#[test]
fn audit_record_before_initialize_fails() {
    let mut env = fresh();
    let w = Address::new("GWRITER");
    let result = AuditLog::record(&mut env, w.clone(), w.clone(), sym("sweep"), w);
    assert_eq!(result, Err(Error::NotInitialized));
    assert_eq!(AuditLog::count(&env), 0);
}

#[test]
fn audit_record_keeps_earlier_entries_and_stamps_ledger() {
    let (mut env, _admin, writer) = setup_with_writer();
    env.set_sequence_number(42);
    let a = Address::new("GACTOR");
    let id0 = AuditLog::record(&mut env, writer.clone(), a.clone(), sym("one"), a.clone()).unwrap();
    let before = AuditLog::get(&env, id0).unwrap();
    env.set_sequence_number(43);
    let id1 = AuditLog::record(&mut env, writer.clone(), a.clone(), sym("two"), a.clone()).unwrap();
    assert_eq!(AuditLog::get(&env, id0).unwrap(), before);
    assert_eq!(before.ledger, 42);
    assert_eq!(AuditLog::get(&env, id1).unwrap().ledger, 43);
    assert_eq!(
        env.events.last().cloned(),
        Some(Event::EntryRecorded(EntryRecorded {
            id: id1,
            writer,
            actor: a.clone(),
            action: sym("two"),
            subject: a,
            ledger: 43,
        }))
    );
}

#[test]
fn audit_error_codes() {
    assert_eq!(Error::AlreadyInitialized.code(), 9100);
    assert_eq!(Error::NotInitialized.code(), 9101);
    assert_eq!(Error::Unauthorized.code(), 9102);
    assert_eq!(Error::UnauthorizedWriter.code(), 9103);
    assert_eq!(Error::EntryNotFound.code(), 9104);
}
