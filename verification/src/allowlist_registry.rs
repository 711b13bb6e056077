pub mod errors;
pub mod events;
pub mod storage;

use vstd::prelude::*;

use crate::address_list::{differs_from, views};
use crate::filters::lemma_filter_all;
use crate::primitives::{Address, Symbol};
pub use errors::Error;
pub use events::{AddressAllowed, AddressRemoved, Event, Initialized};
pub use storage::Storage;

verus! {

/// The ledger environment of an allowlist registry.
pub type Env = crate::env::Env<Storage, Event>;

/// An admin-gated allowlist of approved recovery and sweep destination
/// addresses.
pub struct AllowlistRegistry;

/// The admin-check shared by `add` and `remove`: the error for `admin`, if any.
pub open spec fn admin_check(s: &Storage, admin: Seq<char>) -> Option<Error> {
    match s.admin {
        None => Some(Error::NotInitialized),
        Some(a) => if a@ != admin {
            Some(Error::Unauthorized)
        } else {
            None
        },
    }
}

/// Adding an address that was not allowed and then removing it gives back
/// the allowlist it started from, flags and list alike; and adding an
/// address that is already allowed changes neither.
pub proof fn lemma_add_remove_round_trip(s: Storage, a: Address)
    requires
        s.inv(),
    ensures
        !s.allowed@.contains_key(a@) ==> s.allowed@.insert(a@, ()).remove(a@) == s.allowed@,
        !s.allowed@.contains_key(a@) ==> s.list@.push(a).filter(differs_from(a@)) == s.list@,
        s.allowed@.contains_key(a@) ==> s.allowed@.insert(a@, ()) == s.allowed@,
        s.allowed@.contains_key(a@) ==> views(s.list@).contains(a@),
{
    if !s.allowed@.contains_key(a@) {
        assert(s.allowed@.insert(a@, ()).remove(a@) =~= s.allowed@);
        let p = differs_from(a@);
        assert forall|i: int| 0 <= i < s.list@.len() implies p(#[trigger] s.list@[i]) by {
            assert(views(s.list@)[i] == s.list@[i]@);
        }
        lemma_filter_all(s.list@, p);
        assert(seq![a].filter(p) =~= Seq::<Address>::empty()) by {
            reveal_with_fuel(Seq::filter, 2);
            assert(seq![a].drop_last() =~= Seq::<Address>::empty());
        }
        Seq::filter_distributes_over_add(s.list@, seq![a], p);
        assert(s.list@.push(a) =~= s.list@ + seq![a]);
    } else {
        assert(s.allowed@.insert(a@, ()) =~= s.allowed@);
    }
}

fn check_admin(env: &Env, admin: &Address) -> (r: Result<(), Error>)
    ensures
        match admin_check(&env.storage, admin@) {
            Some(e) => r == Err::<(), Error>(e),
            None => r == Ok::<(), Error>(()),
        },
{
    let stored_admin = match storage::get_admin(env) {
        Some(a) => a,
        None => return Err(Error::NotInitialized),
    };
    if !admin.same_as(&stored_admin) {
        return Err(Error::Unauthorized);
    }
    Ok(())
}

impl AllowlistRegistry {
    /// Sets the admin. Must be called exactly once.
    pub fn initialize(env: &mut Env, admin: Address) -> (r: Result<(), Error>)
        requires
            old(env).storage.inv(),
        ensures
            final(env).storage.inv(),
            old(env).storage.admin is Some <==> r == Err::<(), Error>(Error::AlreadyInitialized),
            r is Ok <==> old(env).storage.admin is None,
            r is Err ==> *final(env) == *old(env),
            r is Ok ==> {
                &&& final(env).storage.admin == Some(admin)
                &&& final(env).storage.allowed == old(env).storage.allowed
                &&& final(env).storage.list == old(env).storage.list
                &&& final(env).auths@ == old(env).auths@.push(admin)
                &&& final(env).events@ == old(env).events@.push(
                    Event::Initialized(Initialized { admin }),
                )
                &&& final(env).ledger_sequence == old(env).ledger_sequence
            },
    {
        if storage::has_admin(env) {
            return Err(Error::AlreadyInitialized);
        }
        env.require_auth(&admin);
        storage::set_admin(env, &admin);
        events::emit_initialized(env, admin);
        Ok(())
    }

    /// Adds `address` to the allowlist with a descriptive `label`. Adding an
    /// address that is already allowed keeps it listed once.
    pub fn add(env: &mut Env, admin: Address, address: Address, label: Symbol) -> (r: Result<
        (),
        Error,
    >)
        requires
            old(env).storage.inv(),
        ensures
            final(env).storage.inv(),
            match admin_check(&old(env).storage, admin@) {
                Some(e) => r == Err::<(), Error>(e) && *final(env) == *old(env),
                None => {
                    &&& r == Ok::<(), Error>(())
                    &&& final(env).storage.allowed@ == old(env).storage.allowed@.insert(
                        address@,
                        (),
                    )
                    &&& final(env).storage.list@ == (if views(old(env).storage.list@).contains(
                        address@,
                    ) {
                        old(env).storage.list@
                    } else {
                        old(env).storage.list@.push(address)
                    })
                    &&& final(env).storage.admin == old(env).storage.admin
                    &&& final(env).auths@ == old(env).auths@.push(admin)
                    &&& final(env).events@ == old(env).events@.push(
                        Event::AddressAllowed(AddressAllowed { address, label, admin }),
                    )
                    &&& final(env).ledger_sequence == old(env).ledger_sequence
                },
            },
    {
        check_admin(env, &admin)?;
        env.require_auth(&admin);
        storage::set_allowed(env, &address);
        storage::list_add(env, &address);
        proof {
            let s = env.storage;
            assert(views(old(env).storage.list@.push(address)) =~= views(
                old(env).storage.list@,
            ).push(address@));
            let ol = views(old(env).storage.list@);
            let nl = views(s.list@);
            assert forall|a: Seq<char>| #[trigger]
                s.allowed@.contains_key(a) <==> nl.contains(a) by {
                if !ol.contains(address@) {
                    assert(nl =~= ol.push(address@));
                    if a == address@ {
                        assert(nl[nl.len() - 1] == a);
                    } else if nl.contains(a) {
                        let i = choose|i: int| 0 <= i < nl.len() && nl[i] == a;
                        assert(ol[i] == a);
                    }
                    if ol.contains(a) {
                        let i = choose|i: int| 0 <= i < ol.len() && ol[i] == a;
                        assert(nl[i] == a);
                    }
                }
            }
        }
        events::emit_address_allowed(env, address, label, admin);
        Ok(())
    }

    /// Removes `address` from the allowlist; a no-op on the storage if it is
    /// not there.
    pub fn remove(env: &mut Env, admin: Address, address: Address) -> (r: Result<(), Error>)
        requires
            old(env).storage.inv(),
        ensures
            final(env).storage.inv(),
            match admin_check(&old(env).storage, admin@) {
                Some(e) => r == Err::<(), Error>(e) && *final(env) == *old(env),
                None => {
                    &&& r == Ok::<(), Error>(())
                    &&& final(env).storage.allowed@ == old(env).storage.allowed@.remove(address@)
                    &&& final(env).storage.list@ == old(env).storage.list@.filter(
                        differs_from(address@),
                    )
                    &&& final(env).storage.admin == old(env).storage.admin
                    &&& final(env).auths@ == old(env).auths@.push(admin)
                    &&& final(env).events@ == old(env).events@.push(
                        Event::AddressRemoved(AddressRemoved { address, admin }),
                    )
                    &&& final(env).ledger_sequence == old(env).ledger_sequence
                },
            },
    {
        check_admin(env, &admin)?;
        env.require_auth(&admin);
        storage::remove_allowed(env, &address);
        storage::list_remove(env, &address);
        events::emit_address_removed(env, address, admin);
        Ok(())
    }

    /// Whether `address` is currently on the allowlist (equivalently, listed).
    pub fn is_allowed(env: &Env, address: Address) -> (r: bool)
        requires
            env.storage.inv(),
        ensures
            r == env.storage.allowed@.contains_key(address@),
            r == views(env.storage.list@).contains(address@),
    {
        storage::is_allowed(env, &address)
    }

    /// All currently allowed addresses, in insertion order, each once.
    pub fn list(env: &Env) -> (r: Vec<Address>)
        requires
            env.storage.inv(),
        ensures
            r@ == env.storage.list@,
            views(r@).no_duplicates(),
    {
        storage::get_list(env)
    }

    /// The admin, once initialized.
    pub fn get_admin(env: &Env) -> (r: Option<Address>)
        ensures
            r == env.storage.admin,
    {
        storage::get_admin(env)
    }
}

} // verus!
