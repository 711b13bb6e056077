use vstd::prelude::*;

use super::Env;
use crate::address_list::{
    copy_list, differs_from, lemma_without_distinct, lemma_without_views, views, without_address,
};
use crate::primitives::{Address, Hash32};
use crate::store::Store;

verus! {

/// The registry's storage: the endpoint hash of each
/// `(watched_address, subscriber)` subscription, and the subscribers of each
/// watched address in subscription order (absent when there are none).
pub struct Storage {
    pub subscriptions: Store<(Address, Address), Hash32>,
    pub subscribers: Store<Address, Vec<Address>>,
}

/// The subscribers of `watched`, in order; empty if there are none.
pub open spec fn subscribers_list(s: &Storage, watched: Seq<char>) -> Seq<Address> {
    if s.subscribers@.contains_key(watched) {
        s.subscribers@[watched]@
    } else {
        Seq::empty()
    }
}

impl Storage {
    /// The storage invariant: each stored subscriber list is non-empty and
    /// holds each subscriber once, and a subscription exists exactly when
    /// its subscriber is listed for its watched address.
    pub open spec fn inv(&self) -> bool {
        &&& self.subscriptions.wf()
        &&& self.subscribers.wf()
        &&& forall|w: Seq<char>| #[trigger]
            self.subscribers@.contains_key(w) ==> self.subscribers@[w]@.len() > 0
        &&& forall|w: Seq<char>| views(#[trigger] subscribers_list(self, w)).no_duplicates()
        &&& forall|w: Seq<char>, s: Seq<char>| #[trigger]
            self.subscriptions@.contains_key((w, s)) <==> views(subscribers_list(self, w)).contains(
                s,
            )
    }

    /// Empty storage.
    pub fn new() -> (r: Storage)
        ensures
            r.inv(),
            r.subscriptions@ == Map::<(Seq<char>, Seq<char>), Hash32>::empty(),
            r.subscribers@ == Map::<Seq<char>, Vec<Address>>::empty(),
    {
        let r = Storage { subscriptions: Store::new(), subscribers: Store::new() };
        assert forall|w: Seq<char>| views(#[trigger] subscribers_list(&r, w)).no_duplicates() by {
            assert(views(subscribers_list(&r, w)) =~= Seq::<Seq<char>>::empty());
        }
        r
    }
}

/// Whether `subscriber` watches `watched_address`.
pub fn has_subscription(env: &Env, subscriber: &Address, watched_address: &Address) -> (r: bool)
    requires
        env.storage.subscriptions.wf(),
    ensures
        r == env.storage.subscriptions@.contains_key((watched_address@, subscriber@)),
{
    env.storage.subscriptions.contains_key(&(watched_address.clone(), subscriber.clone()))
}

/// Stores the endpoint hash of a subscription.
pub fn set_subscription(
    env: &mut Env,
    subscriber: &Address,
    watched_address: &Address,
    endpoint_hash: &Hash32,
)
    requires
        old(env).storage.subscriptions.wf(),
    ensures
        final(env).storage.subscriptions.wf(),
        final(env).storage.subscriptions@ == old(env).storage.subscriptions@.insert(
            (watched_address@, subscriber@),
            *endpoint_hash,
        ),
        final(env).storage.subscribers == old(env).storage.subscribers,
        final(env).events@ == old(env).events@,
        final(env).auths@ == old(env).auths@,
        final(env).ledger_sequence == old(env).ledger_sequence,
{
    env.storage.subscriptions.insert((watched_address.clone(), subscriber.clone()), *endpoint_hash);
}

/// Deletes a subscription.
pub fn remove_subscription(env: &mut Env, subscriber: &Address, watched_address: &Address)
    requires
        old(env).storage.subscriptions.wf(),
    ensures
        final(env).storage.subscriptions.wf(),
        final(env).storage.subscriptions@ == old(env).storage.subscriptions@.remove(
            (watched_address@, subscriber@),
        ),
        final(env).storage.subscribers == old(env).storage.subscribers,
        final(env).events@ == old(env).events@,
        final(env).auths@ == old(env).auths@,
        final(env).ledger_sequence == old(env).ledger_sequence,
{
    env.storage.subscriptions.remove(&(watched_address.clone(), subscriber.clone()));
}

/// The subscribers of `watched_address`, in order; empty if none.
pub fn get_subscribers(env: &Env, watched_address: &Address) -> (r: Vec<Address>)
    requires
        env.storage.subscribers.wf(),
    ensures
        r@ == subscribers_list(&env.storage, watched_address@),
{
    match env.storage.subscribers.get(watched_address) {
        Some(l) => copy_list(l),
        None => Vec::new(),
    }
}

/// Replaces the subscriber list of `watched_address`; an empty list removes
/// the entry.
fn set_subscribers(env: &mut Env, watched_address: &Address, subscribers: Vec<Address>)
    requires
        old(env).storage.subscribers.wf(),
    ensures
        final(env).storage.subscribers.wf(),
        subscribers@.len() == 0 ==> final(env).storage.subscribers@ == old(env).storage.subscribers@.remove(watched_address@),
        subscribers@.len() > 0 ==> final(env).storage.subscribers@ == old(env).storage.subscribers@.insert(watched_address@, subscribers),
        final(env).storage.subscriptions == old(env).storage.subscriptions,
        final(env).events@ == old(env).events@,
        final(env).auths@ == old(env).auths@,
        final(env).ledger_sequence == old(env).ledger_sequence,
{
    if subscribers.len() == 0 {
        env.storage.subscribers.remove(watched_address);
        return;
    }
    env.storage.subscribers.insert(watched_address.clone(), subscribers);
}

/// Appends `subscriber` to the subscribers of `watched_address`.
pub fn add_subscriber(env: &mut Env, watched_address: &Address, subscriber: &Address)
    requires
        old(env).storage.subscribers.wf(),
    ensures
        final(env).storage.subscribers.wf(),
        final(env).storage.subscribers@.contains_key(watched_address@),
        final(env).storage.subscribers@[watched_address@]@ == subscribers_list(
            &old(env).storage,
            watched_address@,
        ).push(*subscriber),
        forall|w: Seq<char>|
            w != watched_address@ ==> (#[trigger] final(env).storage.subscribers@.contains_key(w)
                == old(env).storage.subscribers@.contains_key(w) && subscribers_list(
                &final(env).storage,
                w,
            ) == subscribers_list(&old(env).storage, w)),
        final(env).storage.subscriptions == old(env).storage.subscriptions,
        final(env).events@ == old(env).events@,
        final(env).auths@ == old(env).auths@,
        final(env).ledger_sequence == old(env).ledger_sequence,
{
    let mut subscribers = get_subscribers(env, watched_address);
    subscribers.push(subscriber.clone());
    set_subscribers(env, watched_address, subscribers);
}

/// Removes `subscriber` from the subscribers of `watched_address`.
pub fn remove_subscriber(env: &mut Env, watched_address: &Address, subscriber: &Address)
    requires
        old(env).storage.subscribers.wf(),
    ensures
        final(env).storage.subscribers.wf(),
        subscribers_list(&final(env).storage, watched_address@) == subscribers_list(
            &old(env).storage,
            watched_address@,
        ).filter(differs_from(subscriber@)),
        final(env).storage.subscribers@.contains_key(watched_address@) ==> final(env).storage.subscribers@[watched_address@]@.len() > 0,
        forall|w: Seq<char>|
            w != watched_address@ ==> (#[trigger] final(env).storage.subscribers@.contains_key(w)
                == old(env).storage.subscribers@.contains_key(w) && subscribers_list(
                &final(env).storage,
                w,
            ) == subscribers_list(&old(env).storage, w)),
        final(env).storage.subscriptions == old(env).storage.subscriptions,
        final(env).events@ == old(env).events@,
        final(env).auths@ == old(env).auths@,
        final(env).ledger_sequence == old(env).ledger_sequence,
{
    let old_list = get_subscribers(env, watched_address);
    let updated = without_address(&old_list, subscriber);
    set_subscribers(env, watched_address, updated);
}

} // verus!
