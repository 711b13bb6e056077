use vstd::prelude::*;

use super::Env;
use crate::primitives::Address;

verus! {

/// A payee and its share in basis points (1 bps = 0.01%).
#[derive(Debug, PartialEq, Eq)]
pub struct PayeeEntry {
    pub address: Address,
    pub share_bps: u32,
}

impl Clone for PayeeEntry {
    fn clone(&self) -> (r: Self)
        ensures
            r == *self,
    {
        PayeeEntry { address: self.address.clone(), share_bps: self.share_bps }
    }
}

/// The splitter's storage: the admin and the payee configuration.
pub struct Storage {
    pub admin: Option<Address>,
    pub payees: Option<Vec<PayeeEntry>>,
}

/// The sum of a sequence of shares.
pub open spec fn sum_shares(s: Seq<u32>) -> int
    decreases s.len(),
{
    if s.len() == 0 {
        0
    } else {
        sum_shares(s.drop_last()) + s.last()
    }
}

/// The shares of a payee configuration, in order.
pub open spec fn shares_of(entries: Seq<PayeeEntry>) -> Seq<u32> {
    entries.map_values(|e: PayeeEntry| e.share_bps)
}

/// A payee configuration that `initialize` and `set_payees` accept: at least
/// one payee, every share positive, and the shares summing to 10 000.
pub open spec fn valid_payees(entries: Seq<PayeeEntry>) -> bool {
    &&& entries.len() > 0
    &&& forall|i: int| 0 <= i < entries.len() ==> #[trigger] entries[i].share_bps > 0
    &&& sum_shares(shares_of(entries)) == 10_000
}

impl Storage {
    /// The storage invariant: the admin and a valid payee configuration are
    /// set together.
    pub open spec fn inv(&self) -> bool {
        &&& (self.admin is Some <==> self.payees is Some)
        &&& (self.payees matches Some(p) ==> valid_payees(p@))
    }

    /// Empty storage, as before `initialize`.
    pub fn new() -> (r: Storage)
        ensures
            r.inv(),
            r.admin is None,
            r.payees is None,
    {
        Storage { admin: None, payees: None }
    }
}

pub fn set_admin(env: &mut Env, admin: &Address)
    ensures
        final(env).storage.admin == Some(*admin),
        final(env).storage.payees == old(env).storage.payees,
        final(env).events@ == old(env).events@,
        final(env).auths@ == old(env).auths@,
        final(env).ledger_sequence == old(env).ledger_sequence,
{
    env.storage.admin = Some(admin.clone());
}

pub fn get_admin(env: &Env) -> (r: Option<Address>)
    ensures
        r == env.storage.admin,
{
    match &env.storage.admin {
        Some(a) => Some(a.clone()),
        None => None,
    }
}

pub fn has_admin(env: &Env) -> (r: bool)
    ensures
        r == env.storage.admin is Some,
{
    env.storage.admin.is_some()
}

pub fn set_payees(env: &mut Env, payees: Vec<PayeeEntry>)
    ensures
        final(env).storage.payees == Some(payees),
        final(env).storage.admin == old(env).storage.admin,
        final(env).events@ == old(env).events@,
        final(env).auths@ == old(env).auths@,
        final(env).ledger_sequence == old(env).ledger_sequence,
{
    env.storage.payees = Some(payees);
}

pub fn get_payees(env: &Env) -> (r: Option<Vec<PayeeEntry>>)
    ensures
        r is Some <==> env.storage.payees is Some,
        r matches Some(v) ==> v@ == env.storage.payees->Some_0@,
{
    match &env.storage.payees {
        Some(p) => {
            let mut v: Vec<PayeeEntry> = Vec::new();
            let mut i: usize = 0;
            while i < p.len()
                invariant
                    i <= p@.len(),
                    v@ == p@.take(i as int),
                decreases p@.len() - i,
            {
                v.push(p[i].clone());
                i = i + 1;
                assert(v@ =~= p@.take(i as int));
            }
            assert(v@ =~= p@);
            Some(v)
        },
        None => None,
    }
}

} // verus!
