use vstd::prelude::*;

use crate::address_list::{
    contains_address, copy_list, differs_from, lemma_without_distinct, lemma_without_views, views,
    without_address,
};
use crate::env::Env;
use crate::primitives::Address;
use crate::store::Store;

verus! {

/// The storage of an admin-gated allowlist: the admin, a per-address
/// "allowed" flag for O(1) lookups, and the ordered list of allowed
/// addresses for listing.
pub struct Storage {
    pub admin: Option<Address>,
    pub allowed: Store<Address, ()>,
    pub list: Vec<Address>,
}

impl Storage {
    /// The storage invariant: the flags and the list agree, and the list
    /// holds each address once.
    pub open spec fn inv(&self) -> bool {
        &&& self.allowed.wf()
        &&& views(self.list@).no_duplicates()
        &&& forall|a: Seq<char>| #[trigger]
            self.allowed@.contains_key(a) <==> views(self.list@).contains(a)
    }

    /// Empty storage, as before `initialize`.
    pub fn new() -> (r: Storage)
        ensures
            r.inv(),
            r.admin is None,
            r.allowed@ == Map::<Seq<char>, ()>::empty(),
            r.list@ == Seq::<Address>::empty(),
    {
        let r = Storage { admin: None, allowed: Store::new(), list: Vec::new() };
        assert(views(r.list@) =~= Seq::<Seq<char>>::empty());
        r
    }
}

pub fn set_admin<E>(env: &mut Env<Storage, E>, admin: &Address)
    ensures
        final(env).storage.admin == Some(*admin),
        final(env).storage.allowed == old(env).storage.allowed,
        final(env).storage.list == old(env).storage.list,
        final(env).events@ == old(env).events@,
        final(env).auths@ == old(env).auths@,
        final(env).ledger_sequence == old(env).ledger_sequence,
{
    env.storage.admin = Some(admin.clone());
}

pub fn get_admin<E>(env: &Env<Storage, E>) -> (r: Option<Address>)
    ensures
        r == env.storage.admin,
{
    match &env.storage.admin {
        Some(a) => Some(a.clone()),
        None => None,
    }
}

pub fn has_admin<E>(env: &Env<Storage, E>) -> (r: bool)
    ensures
        r == env.storage.admin is Some,
{
    env.storage.admin.is_some()
}

/// Whether `address` is currently on the allowlist.
pub fn is_allowed<E>(env: &Env<Storage, E>, address: &Address) -> (r: bool)
    requires
        env.storage.allowed.wf(),
    ensures
        r == env.storage.allowed@.contains_key(address@),
{
    env.storage.allowed.contains_key(address)
}

/// Sets the allowed flag of `address`.
pub fn set_allowed<E>(env: &mut Env<Storage, E>, address: &Address)
    requires
        old(env).storage.allowed.wf(),
    ensures
        final(env).storage.allowed.wf(),
        final(env).storage.allowed@ == old(env).storage.allowed@.insert(address@, ()),
        final(env).storage.admin == old(env).storage.admin,
        final(env).storage.list == old(env).storage.list,
        final(env).events@ == old(env).events@,
        final(env).auths@ == old(env).auths@,
        final(env).ledger_sequence == old(env).ledger_sequence,
{
    env.storage.allowed.insert(address.clone(), ());
}

/// Clears the allowed flag of `address`.
pub fn remove_allowed<E>(env: &mut Env<Storage, E>, address: &Address)
    requires
        old(env).storage.allowed.wf(),
    ensures
        final(env).storage.allowed.wf(),
        final(env).storage.allowed@ == old(env).storage.allowed@.remove(address@),
        final(env).storage.admin == old(env).storage.admin,
        final(env).storage.list == old(env).storage.list,
        final(env).events@ == old(env).events@,
        final(env).auths@ == old(env).auths@,
        final(env).ledger_sequence == old(env).ledger_sequence,
{
    env.storage.allowed.remove(address);
}

/// The full list of allowed addresses.
pub fn get_list<E>(env: &Env<Storage, E>) -> (r: Vec<Address>)
    ensures
        r@ == env.storage.list@,
{
    copy_list(&env.storage.list)
}

/// Appends `address` to the list unless it is already there.
pub fn list_add<E>(env: &mut Env<Storage, E>, address: &Address)
    requires
        views(old(env).storage.list@).no_duplicates(),
    ensures
        views(final(env).storage.list@).no_duplicates(),
        final(env).storage.list@ == (if views(old(env).storage.list@).contains(address@) {
            old(env).storage.list@
        } else {
            old(env).storage.list@.push(*address)
        }),
        final(env).storage.admin == old(env).storage.admin,
        final(env).storage.allowed == old(env).storage.allowed,
        final(env).events@ == old(env).events@,
        final(env).auths@ == old(env).auths@,
        final(env).ledger_sequence == old(env).ledger_sequence,
{
    if contains_address(&env.storage.list, address) {
        return;
    }
    let ghost l0 = env.storage.list@;
    env.storage.list.push(address.clone());
    assert(views(env.storage.list@) =~= views(l0).push(address@));
}

/// Removes `address` from the list.
pub fn list_remove<E>(env: &mut Env<Storage, E>, address: &Address)
    requires
        views(old(env).storage.list@).no_duplicates(),
    ensures
        views(final(env).storage.list@).no_duplicates(),
        final(env).storage.list@ == old(env).storage.list@.filter(differs_from(address@)),
        forall|w: Seq<char>|
            views(final(env).storage.list@).contains(w) <==> views(
                old(env).storage.list@,
            ).contains(w) && w != address@,
        final(env).storage.admin == old(env).storage.admin,
        final(env).storage.allowed == old(env).storage.allowed,
        final(env).events@ == old(env).events@,
        final(env).auths@ == old(env).auths@,
        final(env).ledger_sequence == old(env).ledger_sequence,
{
    let ghost l0 = env.storage.list@;
    let new_list = without_address(&env.storage.list, address);
    env.storage.list = new_list;
    proof {
        lemma_without_distinct(l0, address@);
        assert forall|w: Seq<char>|
            views(env.storage.list@).contains(w) <==> views(l0).contains(w) && w != address@ by {
            lemma_without_views(l0, address@, w);
        }
    }
}

} // verus!
