pub mod errors;
pub mod events;
pub mod storage;

use vstd::prelude::*;

use crate::primitives::{Address, Symbol};
pub use errors::Error;
pub use events::{Event, RoleGranted, RoleRevoked};
pub use storage::Storage;

verus! {

/// The ledger environment of an access controller.
pub type Env = crate::env::Env<Storage, Event>;

/// Role-based access control with a single, permanent super admin.
pub struct AccessController;

/// Whether `caller` may grant and revoke roles: it is the super admin or
/// holds the `admin` role.
pub open spec fn may_manage_roles(s: &Storage, caller: Seq<char>) -> bool {
    s.super_admin matches Some(sa) && (sa@ == caller || s.roles@.contains_key(("admin"@, caller)))
}

/// Whether `(role, account)` is the super admin's own `super_admin` role.
pub open spec fn is_super_admin_role(s: &Storage, role: Seq<char>, account: Seq<char>) -> bool {
    s.super_admin matches Some(sa) && role == "super_admin"@ && account == sa@
}

/// The super admin keeps its powers whatever roles are granted or revoked
/// (no operation changes the super admin, and this holds for any roles): it
/// may always manage roles, and revoking its own `super_admin` role is
/// always refused.
pub proof fn lemma_super_admin_is_permanent(s: Storage, sa: Address)
    requires
        s.super_admin == Some(sa),
    ensures
        may_manage_roles(&s, sa@),
        is_super_admin_role(&s, "super_admin"@, sa@),
{
}

/// Who may manage roles: exactly the stored super admin and the holders of
/// the `admin` role. Holding any other role, one named `super_admin`
/// included, gives no right to grant or revoke roles.
pub proof fn lemma_role_managers(s: Storage, caller: Seq<char>, role: Seq<char>)
    requires
        s.super_admin is Some,
    ensures
        may_manage_roles(&s, caller) <==> (s.super_admin->Some_0@ == caller || s.roles@.contains_key(
            ("admin"@, caller),
        )),
        role != "admin"@ && s.super_admin->Some_0@ != caller && !s.roles@.contains_key(
            ("admin"@, caller),
        ) ==> !may_manage_roles(&s, caller),
{
}

/// What `revoke_role` refuses to revoke: only the super admin's own
/// `super_admin` role. Any other role of any account, the super admin's
/// other roles included, can be revoked by a caller who manages roles.
pub proof fn lemma_only_super_admin_role_is_protected(
    s: Storage,
    role: Seq<char>,
    account: Seq<char>,
)
    requires
        s.super_admin is Some,
    ensures
        is_super_admin_role(&s, role, account) <==> (role == "super_admin"@ && account
            == s.super_admin->Some_0@),
        role != "super_admin"@ ==> !is_super_admin_role(&s, role, account),
        account != s.super_admin->Some_0@ ==> !is_super_admin_role(&s, role, account),
{
}

/// Demands `caller`'s authorization, then checks that `caller` is the super
/// admin or holds the `admin` role.
pub fn require_admin_or_super_admin(env: &mut Env, caller: &Address) -> (r: Result<(), Error>)
    requires
        old(env).storage.inv(),
    ensures
        final(env).demands_auth(*old(env), *caller),
        old(env).storage.super_admin is None ==> r == Err::<(), Error>(Error::NotInitialized),
        old(env).storage.super_admin is Some ==> (r is Ok <==> may_manage_roles(
            &old(env).storage,
            caller@,
        )),
        r is Err && old(env).storage.super_admin is Some ==> r == Err::<(), Error>(
            Error::Unauthorized,
        ),
{
    env.require_auth(caller);
    let super_admin = match storage::get_super_admin(env) {
        Some(a) => a,
        None => return Err(Error::NotInitialized),
    };
    if caller.same_as(&super_admin) {
        return Ok(());
    }
    let admin_role = Symbol::new("admin");
    if storage::has_role(env, &admin_role, caller) {
        return Ok(());
    }
    Err(Error::Unauthorized)
}

impl AccessController {
    /// Sets the super admin. Can only be called once.
    pub fn initialize(env: &mut Env, super_admin: Address) -> (r: Result<(), Error>)
        requires
            old(env).storage.inv(),
        ensures
            final(env).storage.inv(),
            old(env).storage.super_admin is Some <==> r == Err::<(), Error>(
                Error::AlreadyInitialized,
            ),
            r is Ok <==> old(env).storage.super_admin is None,
            r is Err ==> *final(env) == *old(env),
            r is Ok ==> {
                &&& final(env).storage.super_admin == Some(super_admin)
                &&& final(env).storage.roles == old(env).storage.roles
                &&& final(env).auths@ == old(env).auths@.push(super_admin)
                &&& final(env).events@ == old(env).events@
                &&& final(env).ledger_sequence == old(env).ledger_sequence
            },
    {
        if storage::get_super_admin(env).is_some() {
            return Err(Error::AlreadyInitialized);
        }
        env.require_auth(&super_admin);
        storage::set_super_admin(env, &super_admin);
        Ok(())
    }

    /// Grants `role` to `account`. The caller must authorize the call and be
    /// the super admin or hold the `admin` role; its authorization is demanded
    /// first, also when the call is then refused.
    pub fn grant_role(env: &mut Env, caller: Address, role: Symbol, account: Address) -> (r:
        Result<(), Error>)
        requires
            old(env).storage.inv(),
        ensures
            final(env).storage.inv(),
            old(env).storage.super_admin is None ==> r == Err::<(), Error>(Error::NotInitialized),
            old(env).storage.super_admin is Some ==> (r is Ok <==> may_manage_roles(
                &old(env).storage,
                caller@,
            )),
            r is Err && old(env).storage.super_admin is Some ==> r == Err::<(), Error>(
                Error::Unauthorized,
            ),
            r is Err ==> final(env).demands_auth(*old(env), caller),
            r is Ok ==> {
                &&& final(env).storage.roles@ == old(env).storage.roles@.insert(
                    (role@, account@),
                    (),
                )
                &&& final(env).storage.super_admin == old(env).storage.super_admin
                &&& final(env).auths@ == old(env).auths@.push(caller)
                &&& final(env).events@ == old(env).events@.push(
                    Event::RoleGranted(RoleGranted { role, account, caller }),
                )
                &&& final(env).ledger_sequence == old(env).ledger_sequence
            },
            old(env).storage.super_admin matches Some(sa) ==> (r is Ok ==> (sa@ == caller@
                || old(env).storage.roles@.contains_key(("admin"@, caller@)))),
            old(env).storage.super_admin matches Some(sa) && (sa@ == caller@
                || old(env).storage.roles@.contains_key(("admin"@, caller@))) ==> r is Ok,
    {
        require_admin_or_super_admin(env, &caller)?;
        storage::set_role(env, &role, &account);
        events::emit_role_granted(env, role, account, caller);
        Ok(())
    }

    /// Revokes `role` from `account` (a no-op on the storage if it was never
    /// granted). The caller must be the super admin or hold the `admin` role.
    /// The super admin's `super_admin` role cannot be revoked. The caller's
    /// authorization is demanded first, also when the call is then refused.
    pub fn revoke_role(env: &mut Env, caller: Address, role: Symbol, account: Address) -> (r:
        Result<(), Error>)
        requires
            old(env).storage.inv(),
        ensures
            final(env).storage.inv(),
            old(env).storage.super_admin is None ==> r == Err::<(), Error>(Error::NotInitialized),
            old(env).storage.super_admin is Some && !may_manage_roles(&old(env).storage, caller@)
                ==> r == Err::<(), Error>(Error::Unauthorized),
            may_manage_roles(&old(env).storage, caller@) ==> (r == Err::<(), Error>(
                Error::CannotRevokeSuperAdmin,
            ) <==> is_super_admin_role(&old(env).storage, role@, account@)),
            r is Ok <==> may_manage_roles(&old(env).storage, caller@) && !is_super_admin_role(
                &old(env).storage,
                role@,
                account@,
            ),
            r is Err ==> final(env).demands_auth(*old(env), caller),
            r is Ok ==> {
                &&& final(env).storage.roles@ == old(env).storage.roles@.remove((role@, account@))
                &&& final(env).storage.super_admin == old(env).storage.super_admin
                &&& final(env).auths@ == old(env).auths@.push(caller)
                &&& final(env).events@ == old(env).events@.push(
                    Event::RoleRevoked(RoleRevoked { role, account, caller }),
                )
                &&& final(env).ledger_sequence == old(env).ledger_sequence
            },
            old(env).storage.super_admin matches Some(sa) ==> (r is Ok ==> (sa@ == caller@
                || old(env).storage.roles@.contains_key(("admin"@, caller@)))),
            old(env).storage.super_admin matches Some(sa) && (sa@ == caller@
                || old(env).storage.roles@.contains_key(("admin"@, caller@))) && role@
                != "super_admin"@ ==> r is Ok,
    {
        require_admin_or_super_admin(env, &caller)?;
        let super_admin = match storage::get_super_admin(env) {
            Some(a) => a,
            None => return Err(Error::NotInitialized),
        };
        let super_admin_role = Symbol::new("super_admin");
        if role.same_as(&super_admin_role) && account.same_as(&super_admin) {
            return Err(Error::CannotRevokeSuperAdmin);
        }
        storage::remove_role(env, &role, &account);
        events::emit_role_revoked(env, role, account, caller);
        Ok(())
    }

    /// Whether `account` holds `role`.
    pub fn has_role(env: &Env, role: Symbol, account: Address) -> (r: bool)
        requires
            env.storage.inv(),
        ensures
            r == env.storage.roles@.contains_key((role@, account@)),
    {
        storage::has_role(env, &role, &account)
    }

    /// The super admin, once initialized.
    pub fn get_super_admin(env: &Env) -> (r: Option<Address>)
        ensures
            r == env.storage.super_admin,
    {
        storage::get_super_admin(env)
    }
}

} // verus!
