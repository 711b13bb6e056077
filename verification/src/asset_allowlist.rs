pub mod errors;
pub mod events;

use vstd::prelude::*;

use crate::address_list::{differs_from, views};
use crate::primitives::Address;
pub use crate::allowlist_registry::storage;
pub use errors::Error;
pub use events::{AssetAllowed, AssetDisallowed, Event, Initialized};
pub use storage::Storage;

verus! {

/// The ledger environment of an asset allowlist.
pub type Env = crate::env::Env<Storage, Event>;

/// An admin-gated allowlist of approved asset contract addresses.
pub struct AssetAllowlist;

/// The admin-check shared by `allow` and `disallow`: the error for `admin`,
/// if any.
pub open spec fn admin_check(s: &Storage, admin: Seq<char>) -> Option<Error> {
    match s.admin {
        None => Some(Error::NotInitialized),
        Some(a) => if a@ != admin {
            Some(Error::Unauthorized)
        } else {
            None
        },
    }
}

fn check_admin(env: &Env, admin: &Address) -> (r: Result<(), Error>)
    ensures
        match admin_check(&env.storage, admin@) {
            Some(e) => r == Err::<(), Error>(e),
            None => r == Ok::<(), Error>(()),
        },
{
    let stored_admin = match storage::get_admin(env) {
        Some(a) => a,
        None => return Err(Error::NotInitialized),
    };
    if !admin.same_as(&stored_admin) {
        return Err(Error::Unauthorized);
    }
    Ok(())
}

impl AssetAllowlist {
    /// Sets the admin. Must be called exactly once.
    pub fn initialize(env: &mut Env, admin: Address) -> (r: Result<(), Error>)
        requires
            old(env).storage.inv(),
        ensures
            final(env).storage.inv(),
            old(env).storage.admin is Some <==> r == Err::<(), Error>(Error::AlreadyInitialized),
            r is Ok <==> old(env).storage.admin is None,
            r is Err ==> *final(env) == *old(env),
            r is Ok ==> {
                &&& final(env).storage.admin == Some(admin)
                &&& final(env).storage.allowed == old(env).storage.allowed
                &&& final(env).storage.list == old(env).storage.list
                &&& final(env).auths@ == old(env).auths@.push(admin)
                &&& final(env).events@ == old(env).events@.push(
                    Event::Initialized(Initialized { admin }),
                )
                &&& final(env).ledger_sequence == old(env).ledger_sequence
            },
    {
        if storage::has_admin(env) {
            return Err(Error::AlreadyInitialized);
        }
        env.require_auth(&admin);
        storage::set_admin(env, &admin);
        events::emit_initialized(env, admin);
        Ok(())
    }

    /// Adds `asset` to the allowlist. Allowing an asset that is already
    /// allowed changes nothing and publishes nothing.
    pub fn allow(env: &mut Env, admin: Address, asset: Address) -> (r: Result<(), Error>)
        requires
            old(env).storage.inv(),
        ensures
            final(env).storage.inv(),
            match admin_check(&old(env).storage, admin@) {
                Some(e) => r == Err::<(), Error>(e) && *final(env) == *old(env),
                None => {
                    &&& r == Ok::<(), Error>(())
                    &&& final(env).auths@ == old(env).auths@.push(admin)
                    &&& final(env).storage.admin == old(env).storage.admin
                    &&& final(env).ledger_sequence == old(env).ledger_sequence
                    &&& if old(env).storage.allowed@.contains_key(asset@) {
                        &&& final(env).storage.allowed == old(env).storage.allowed
                        &&& final(env).storage.list == old(env).storage.list
                        &&& final(env).events@ == old(env).events@
                    } else {
                        &&& final(env).storage.allowed@ == old(env).storage.allowed@.insert(
                            asset@,
                            (),
                        )
                        &&& final(env).storage.list@ == old(env).storage.list@.push(asset)
                        &&& final(env).events@ == old(env).events@.push(
                            Event::AssetAllowed(AssetAllowed { asset, admin }),
                        )
                    }
                },
            },
    {
        check_admin(env, &admin)?;
        env.require_auth(&admin);
        if storage::is_allowed(env, &asset) {
            return Ok(());
        }
        storage::set_allowed(env, &asset);
        storage::list_add(env, &asset);
        proof {
            let s = env.storage;
            let ol = views(old(env).storage.list@);
            let nl = views(s.list@);
            assert(nl =~= ol.push(asset@));
            assert forall|a: Seq<char>| #[trigger]
                s.allowed@.contains_key(a) <==> nl.contains(a) by {
                if a == asset@ {
                    assert(nl[nl.len() - 1] == a);
                } else if nl.contains(a) {
                    let i = choose|i: int| 0 <= i < nl.len() && nl[i] == a;
                    assert(ol[i] == a);
                }
                if ol.contains(a) {
                    let i = choose|i: int| 0 <= i < ol.len() && ol[i] == a;
                    assert(nl[i] == a);
                }
            }
        }
        events::emit_asset_allowed(env, asset, admin);
        Ok(())
    }

    /// Removes `asset` from the allowlist; a no-op on the storage if it is
    /// not there.
    pub fn disallow(env: &mut Env, admin: Address, asset: Address) -> (r: Result<(), Error>)
        requires
            old(env).storage.inv(),
        ensures
            final(env).storage.inv(),
            match admin_check(&old(env).storage, admin@) {
                Some(e) => r == Err::<(), Error>(e) && *final(env) == *old(env),
                None => {
                    &&& r == Ok::<(), Error>(())
                    &&& final(env).storage.allowed@ == old(env).storage.allowed@.remove(asset@)
                    &&& final(env).storage.list@ == old(env).storage.list@.filter(
                        differs_from(asset@),
                    )
                    &&& final(env).storage.admin == old(env).storage.admin
                    &&& final(env).auths@ == old(env).auths@.push(admin)
                    &&& final(env).events@ == old(env).events@.push(
                        Event::AssetDisallowed(AssetDisallowed { asset, admin }),
                    )
                    &&& final(env).ledger_sequence == old(env).ledger_sequence
                },
            },
    {
        check_admin(env, &admin)?;
        env.require_auth(&admin);
        storage::remove_allowed(env, &asset);
        storage::list_remove(env, &asset);
        events::emit_asset_disallowed(env, asset, admin);
        Ok(())
    }

    /// Whether `asset` is currently on the allowlist (equivalently, listed).
    pub fn is_allowed(env: &Env, asset: Address) -> (r: bool)
        requires
            env.storage.inv(),
        ensures
            r == env.storage.allowed@.contains_key(asset@),
            r == views(env.storage.list@).contains(asset@),
    {
        storage::is_allowed(env, &asset)
    }

    /// All currently allowed assets, in insertion order, each once.
    pub fn list(env: &Env) -> (r: Vec<Address>)
        requires
            env.storage.inv(),
        ensures
            r@ == env.storage.list@,
            views(r@).no_duplicates(),
    {
        storage::get_list(env)
    }

    /// The admin, once initialized.
    pub fn get_admin(env: &Env) -> (r: Option<Address>)
        ensures
            r == env.storage.admin,
    {
        storage::get_admin(env)
    }
}

} // verus!
