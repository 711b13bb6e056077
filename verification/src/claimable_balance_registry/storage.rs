use vstd::prelude::*;

use super::Env;
use crate::primitives::Address;
use crate::store::Store;

verus! {

/// The registry's storage: the admin, the authorized writer, and the
/// claimable balance of each `(recovery_address, asset)` pair.
pub struct Storage {
    pub admin: Option<Address>,
    pub writer: Option<Address>,
    pub balances: Store<(Address, Address), i128>,
}

/// The recorded balance of `(recovery, asset)`; 0 when none was recorded.
pub open spec fn balance(s: &Storage, recovery: Seq<char>, asset: Seq<char>) -> i128 {
    if s.balances@.contains_key((recovery, asset)) {
        s.balances@[(recovery, asset)]
    } else {
        0
    }
}

impl Storage {
    /// The storage invariant: admin and writer are set together, and no
    /// balance is negative.
    pub open spec fn inv(&self) -> bool {
        &&& self.balances.wf()
        &&& (self.admin is Some <==> self.writer is Some)
        &&& forall|k: (Seq<char>, Seq<char>)| #[trigger]
            self.balances@.contains_key(k) ==> self.balances@[k] >= 0
    }

    /// Empty storage, as before `initialize`.
    pub fn new() -> (r: Storage)
        ensures
            r.inv(),
            r.admin is None,
            r.writer is None,
            r.balances@ == Map::<(Seq<char>, Seq<char>), i128>::empty(),
    {
        Storage { admin: None, writer: None, balances: Store::new() }
    }
}

pub fn set_admin(env: &mut Env, admin: &Address)
    ensures
        final(env).storage.admin == Some(*admin),
        final(env).storage.writer == old(env).storage.writer,
        final(env).storage.balances == old(env).storage.balances,
        final(env).events@ == old(env).events@,
        final(env).auths@ == old(env).auths@,
        final(env).ledger_sequence == old(env).ledger_sequence,
{
    env.storage.admin = Some(admin.clone());
}

pub fn get_admin(env: &Env) -> (r: Option<Address>)
    ensures
        r == env.storage.admin,
{
    match &env.storage.admin {
        Some(a) => Some(a.clone()),
        None => None,
    }
}

pub fn has_admin(env: &Env) -> (r: bool)
    ensures
        r == env.storage.admin is Some,
{
    env.storage.admin.is_some()
}

pub fn set_writer(env: &mut Env, writer: &Address)
    ensures
        final(env).storage.writer == Some(*writer),
        final(env).storage.admin == old(env).storage.admin,
        final(env).storage.balances == old(env).storage.balances,
        final(env).events@ == old(env).events@,
        final(env).auths@ == old(env).auths@,
        final(env).ledger_sequence == old(env).ledger_sequence,
{
    env.storage.writer = Some(writer.clone());
}

pub fn get_writer(env: &Env) -> (r: Option<Address>)
    ensures
        r == env.storage.writer,
{
    match &env.storage.writer {
        Some(a) => Some(a.clone()),
        None => None,
    }
}

/// The recorded balance of `(recovery_address, asset)`, or 0 if none.
pub fn get_balance(env: &Env, recovery_address: &Address, asset: &Address) -> (r: i128)
    requires
        env.storage.balances.wf(),
    ensures
        r == balance(&env.storage, recovery_address@, asset@),
{
    match env.storage.balances.get(&(recovery_address.clone(), asset.clone())) {
        Some(b) => *b,
        None => 0,
    }
}

/// Overwrites the balance of `(recovery_address, asset)`.
pub fn set_balance(env: &mut Env, recovery_address: &Address, asset: &Address, amount: i128)
    requires
        old(env).storage.balances.wf(),
    ensures
        final(env).storage.balances.wf(),
        final(env).storage.balances@ == old(env).storage.balances@.insert(
            (recovery_address@, asset@),
            amount,
        ),
        final(env).storage.admin == old(env).storage.admin,
        final(env).storage.writer == old(env).storage.writer,
        final(env).events@ == old(env).events@,
        final(env).auths@ == old(env).auths@,
        final(env).ledger_sequence == old(env).ledger_sequence,
{
    env.storage.balances.insert((recovery_address.clone(), asset.clone()), amount);
}

} // verus!
