use vstd::prelude::*;

use super::Env;
use crate::primitives::{Address, Symbol};
use crate::store::Store;

verus! {

/// The access controller's storage: the super admin and the granted
/// `(role, account)` pairs.
pub struct Storage {
    pub super_admin: Option<Address>,
    pub roles: Store<(Symbol, Address), ()>,
}

impl Storage {
    pub open spec fn inv(&self) -> bool {
        self.roles.wf()
    }

    /// Empty storage, as before `initialize`.
    pub fn new() -> (r: Storage)
        ensures
            r.inv(),
            r.super_admin is None,
            r.roles@ == Map::<(Seq<char>, Seq<char>), ()>::empty(),
    {
        Storage { super_admin: None, roles: Store::new() }
    }
}

pub fn get_super_admin(env: &Env) -> (r: Option<Address>)
    ensures
        r == env.storage.super_admin,
{
    match &env.storage.super_admin {
        Some(a) => Some(a.clone()),
        None => None,
    }
}

pub fn set_super_admin(env: &mut Env, super_admin: &Address)
    ensures
        final(env).storage.super_admin == Some(*super_admin),
        final(env).storage.roles == old(env).storage.roles,
        final(env).events@ == old(env).events@,
        final(env).auths@ == old(env).auths@,
        final(env).ledger_sequence == old(env).ledger_sequence,
{
    env.storage.super_admin = Some(super_admin.clone());
}

pub fn has_role(env: &Env, role: &Symbol, account: &Address) -> (r: bool)
    requires
        env.storage.inv(),
    ensures
        r == env.storage.roles@.contains_key((role@, account@)),
{
    env.storage.roles.contains_key(&(role.clone(), account.clone()))
}

pub fn set_role(env: &mut Env, role: &Symbol, account: &Address)
    requires
        old(env).storage.inv(),
    ensures
        final(env).storage.inv(),
        final(env).storage.roles@ == old(env).storage.roles@.insert((role@, account@), ()),
        final(env).storage.super_admin == old(env).storage.super_admin,
        final(env).events@ == old(env).events@,
        final(env).auths@ == old(env).auths@,
        final(env).ledger_sequence == old(env).ledger_sequence,
{
    env.storage.roles.insert((role.clone(), account.clone()), ());
}

pub fn remove_role(env: &mut Env, role: &Symbol, account: &Address)
    requires
        old(env).storage.inv(),
    ensures
        final(env).storage.inv(),
        final(env).storage.roles@ == old(env).storage.roles@.remove((role@, account@)),
        final(env).storage.super_admin == old(env).storage.super_admin,
        final(env).events@ == old(env).events@,
        final(env).auths@ == old(env).auths@,
        final(env).ledger_sequence == old(env).ledger_sequence,
{
    env.storage.roles.remove(&(role.clone(), account.clone()));
}

} // verus!
