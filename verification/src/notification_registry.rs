pub mod errors;
pub mod events;
pub mod storage;

use vstd::prelude::*;

use crate::address_list::{differs_from, lemma_without_distinct, lemma_without_views, views};
use crate::filters::lemma_filter_keeps_order;
use crate::primitives::{Address, Hash32};
pub use errors::Error;
pub use events::{EndpointUpdated, Event, Subscribed, Unsubscribed};
pub use storage::{subscribers_list, Storage};

verus! {

/// The ledger environment of a notification registry.
pub type Env = crate::env::Env<Storage, Event>;

/// An on-chain registry of off-chain event subscribers: a subscriber
/// watches an address and keeps a hash of its off-chain endpoint there.
pub struct NotificationRegistry;

/// The operations of a notification registry.
pub trait NotificationRegistryInterface {
    fn subscribe(env: &mut Env, subscriber: Address, watched_address: Address, endpoint_hash: Hash32) -> (r:
        Result<(), Error>)
        requires
            old(env).storage.inv(),
        ensures
            final(env).storage.inv(),
            r == Ok::<(), Error>(()),
            final(env).storage.subscriptions@ == old(env).storage.subscriptions@.insert(
                (watched_address@, subscriber@),
                endpoint_hash,
            ),
            final(env).auths@ == old(env).auths@.push(subscriber),
            final(env).ledger_sequence == old(env).ledger_sequence,
            forall|w: Seq<char>|
                w != watched_address@ ==> #[trigger] subscribers_list(&final(env).storage, w)
                    == subscribers_list(&old(env).storage, w),
            if old(env).storage.subscriptions@.contains_key((watched_address@, subscriber@)) {
                &&& subscribers_list(&final(env).storage, watched_address@) == subscribers_list(
                    &old(env).storage,
                    watched_address@,
                )
                &&& final(env).events@ == old(env).events@.push(
                    Event::EndpointUpdated(
                        EndpointUpdated { subscriber, watched_address, endpoint_hash },
                    ),
                )
            } else {
                &&& subscribers_list(&final(env).storage, watched_address@) == subscribers_list(
                    &old(env).storage,
                    watched_address@,
                ).push(subscriber)
                &&& final(env).events@ == old(env).events@.push(
                    Event::Subscribed(Subscribed { subscriber, watched_address, endpoint_hash }),
                )
            },
    ;

    fn unsubscribe(env: &mut Env, subscriber: Address, watched_address: Address) -> (r: Result<
        (),
        Error,
    >)
        requires
            old(env).storage.inv(),
        ensures
            final(env).storage.inv(),
            r is Err <==> !old(env).storage.subscriptions@.contains_key(
                (watched_address@, subscriber@),
            ),
    ;

    fn subscribers_of(env: &Env, watched_address: Address) -> (r: Vec<Address>)
        requires
            env.storage.inv(),
        ensures
            r@ == subscribers_list(&env.storage, watched_address@),
    ;
}

/// Re-subscribing is an idempotent upsert: in every state the operations
/// keep, a subscriber appears at most once among the subscribers of an
/// address, and only while it holds a subscription to that address.
pub proof fn lemma_subscriber_listed_once(s: Storage, watched: Seq<char>, subscriber: Seq<char>, i: int, j: int)
    requires
        s.inv(),
        0 <= i < subscribers_list(&s, watched).len(),
        0 <= j < subscribers_list(&s, watched).len(),
        subscribers_list(&s, watched)[i]@ == subscriber,
        subscribers_list(&s, watched)[j]@ == subscriber,
    ensures
        i == j,
        s.subscriptions@.contains_key((watched, subscriber)),
{
    let l = subscribers_list(&s, watched);
    assert(views(l)[i] == subscriber);
    assert(views(l)[j] == subscriber);
    assert(views(l).contains(subscriber));
}

/// The subscribers of an address are listed in the order they subscribed:
/// `subscribe` appends a new subscriber (its contract), and `unsubscribe`
/// keeps every remaining subscriber in its place relative to the others.
pub proof fn lemma_unsubscribe_keeps_order(list: Seq<Address>, subscriber: Seq<char>, i: int, j: int)
    requires
        0 <= i < j < list.filter(differs_from(subscriber)).len(),
    ensures
        exists|a: int, b: int|
            0 <= a < b < list.len() && list[a] == list.filter(differs_from(subscriber))[i]
                && list[b] == list.filter(differs_from(subscriber))[j],
{
    lemma_filter_keeps_order(list, differs_from(subscriber), i, j);
}

impl NotificationRegistry {
    /// Subscribes `subscriber` to the events of `watched_address` with the
    /// given endpoint hash. Subscribing again replaces the hash and keeps the
    /// subscriber listed once. The subscriber must authorize the call.
    pub fn subscribe(
        env: &mut Env,
        subscriber: Address,
        watched_address: Address,
        endpoint_hash: Hash32,
    ) -> (r: Result<(), Error>)
        requires
            old(env).storage.inv(),
        ensures
            final(env).storage.inv(),
            r == Ok::<(), Error>(()),
            final(env).storage.subscriptions@ == old(env).storage.subscriptions@.insert(
                (watched_address@, subscriber@),
                endpoint_hash,
            ),
            final(env).auths@ == old(env).auths@.push(subscriber),
            final(env).ledger_sequence == old(env).ledger_sequence,
            forall|w: Seq<char>|
                w != watched_address@ ==> #[trigger] subscribers_list(&final(env).storage, w)
                    == subscribers_list(&old(env).storage, w),
            if old(env).storage.subscriptions@.contains_key((watched_address@, subscriber@)) {
                &&& subscribers_list(&final(env).storage, watched_address@) == subscribers_list(
                    &old(env).storage,
                    watched_address@,
                )
                &&& final(env).events@ == old(env).events@.push(
                    Event::EndpointUpdated(
                        EndpointUpdated { subscriber, watched_address, endpoint_hash },
                    ),
                )
            } else {
                &&& subscribers_list(&final(env).storage, watched_address@) == subscribers_list(
                    &old(env).storage,
                    watched_address@,
                ).push(subscriber)
                &&& final(env).events@ == old(env).events@.push(
                    Event::Subscribed(Subscribed { subscriber, watched_address, endpoint_hash }),
                )
            },
    {
        env.require_auth(&subscriber);
        let already_subscribed = storage::has_subscription(env, &subscriber, &watched_address);
        let ghost s0 = env.storage;
        storage::set_subscription(env, &subscriber, &watched_address, &endpoint_hash);
        if already_subscribed {
            proof {
                let s = env.storage;
                assert forall|w: Seq<char>, a: Seq<char>| #[trigger]
                    s.subscriptions@.contains_key((w, a)) <==> views(
                        subscribers_list(&s, w),
                    ).contains(a) by {
                    assert(s0.subscriptions@.contains_key((w, a)) <==> views(
                        subscribers_list(&s0, w),
                    ).contains(a));
                }
                assert forall|w: Seq<char>| views(#[trigger] subscribers_list(&s, w)).no_duplicates() by {
                    assert(subscribers_list(&s, w) == subscribers_list(&s0, w));
                }
            }
            events::emit_endpoint_updated(env, subscriber, watched_address, endpoint_hash);
        } else {
            storage::add_subscriber(env, &watched_address, &subscriber);
            proof {
                let s = env.storage;
                let w0 = watched_address@;
                let old_l = views(subscribers_list(&s0, w0));
                let new_l = views(subscribers_list(&s, w0));
                assert(new_l =~= old_l.push(subscriber@));
                assert(!old_l.contains(subscriber@));
                assert forall|w: Seq<char>, a: Seq<char>| #[trigger]
                    s.subscriptions@.contains_key((w, a)) <==> views(
                        subscribers_list(&s, w),
                    ).contains(a) by {
                    if w == w0 {
                        if a != subscriber@ && new_l.contains(a) {
                            let i = choose|i: int| 0 <= i < new_l.len() && new_l[i] == a;
                            assert(old_l[i] == a);
                        }
                        if old_l.contains(a) {
                            let i = choose|i: int| 0 <= i < old_l.len() && old_l[i] == a;
                            assert(new_l[i] == a);
                        }
                        if a == subscriber@ {
                            assert(new_l[new_l.len() - 1] == a);
                        }
                    } else {
                        assert(subscribers_list(&s, w) == subscribers_list(&s0, w));
                    }
                }
                assert forall|w: Seq<char>| views(#[trigger] subscribers_list(&s, w)).no_duplicates() by {
                    if w != w0 {
                        assert(subscribers_list(&s, w) == subscribers_list(&s0, w));
                    } else {
                        assert(old_l.no_duplicates());
                        assert forall|i: int, j: int|
                            0 <= i < new_l.len() && 0 <= j < new_l.len() && i != j implies new_l[i]
                            != new_l[j] by {
                            if i == new_l.len() - 1 {
                                assert(old_l[j] == new_l[j]);
                            } else if j == new_l.len() - 1 {
                                assert(old_l[i] == new_l[i]);
                            }
                        }
                    }
                }
                assert forall|w: Seq<char>| #[trigger]
                    s.subscribers@.contains_key(w) implies s.subscribers@[w]@.len() > 0 by {
                    if w != w0 {
                        assert(subscribers_list(&s, w) == subscribers_list(&s0, w));
                    }
                }
            }
            events::emit_subscribed(env, subscriber, watched_address, endpoint_hash);
        }
        Ok(())
    }

    /// Removes `subscriber`'s subscription to `watched_address`. The
    /// subscriber's authorization is demanded first, also when there is no
    /// subscription to remove.
    pub fn unsubscribe(env: &mut Env, subscriber: Address, watched_address: Address) -> (r: Result<
        (),
        Error,
    >)
        requires
            old(env).storage.inv(),
        ensures
            final(env).storage.inv(),
            !old(env).storage.subscriptions@.contains_key((watched_address@, subscriber@)) <==> r
                == Err::<(), Error>(Error::NotSubscribed),
            r is Ok <==> old(env).storage.subscriptions@.contains_key((watched_address@, subscriber@)),
            r is Err ==> final(env).demands_auth(*old(env), subscriber),
            r is Ok ==> {
                &&& final(env).storage.subscriptions@ == old(env).storage.subscriptions@.remove(
                    (watched_address@, subscriber@),
                )
                &&& subscribers_list(&final(env).storage, watched_address@) == subscribers_list(
                    &old(env).storage,
                    watched_address@,
                ).filter(differs_from(subscriber@))
                &&& forall|w: Seq<char>|
                    w != watched_address@ ==> #[trigger] subscribers_list(&final(env).storage, w)
                        == subscribers_list(&old(env).storage, w)
                &&& final(env).auths@ == old(env).auths@.push(subscriber)
                &&& final(env).events@ == old(env).events@.push(
                    Event::Unsubscribed(Unsubscribed { subscriber, watched_address }),
                )
                &&& final(env).ledger_sequence == old(env).ledger_sequence
            },
    {
        env.require_auth(&subscriber);
        if !storage::has_subscription(env, &subscriber, &watched_address) {
            return Err(Error::NotSubscribed);
        }
        let ghost s0 = env.storage;
        storage::remove_subscription(env, &subscriber, &watched_address);
        storage::remove_subscriber(env, &watched_address, &subscriber);
        proof {
            let s = env.storage;
            let w0 = watched_address@;
            let a0 = subscriber@;
            lemma_without_distinct(subscribers_list(&s0, w0), a0);
            assert forall|w: Seq<char>, a: Seq<char>| #[trigger]
                s.subscriptions@.contains_key((w, a)) <==> views(subscribers_list(&s, w)).contains(
                    a,
                ) by {
                if w == w0 {
                    lemma_without_views(subscribers_list(&s0, w0), a0, a);
                } else {
                    assert(subscribers_list(&s, w) == subscribers_list(&s0, w));
                }
            }
            assert forall|w: Seq<char>| views(#[trigger] subscribers_list(&s, w)).no_duplicates() by {
                if w != w0 {
                    assert(subscribers_list(&s, w) == subscribers_list(&s0, w));
                }
            }
            assert forall|w: Seq<char>| #[trigger]
                s.subscribers@.contains_key(w) implies s.subscribers@[w]@.len() > 0 by {
                if w != w0 {
                    assert(subscribers_list(&s, w) == subscribers_list(&s0, w));
                }
            }
        }
        events::emit_unsubscribed(env, subscriber, watched_address);
        Ok(())
    }

    /// The subscribers of `watched_address`, in subscription order, each
    /// once; empty when there are none.
    pub fn subscribers_of(env: &Env, watched_address: Address) -> (r: Vec<Address>)
        requires
            env.storage.inv(),
        ensures
            r@ == subscribers_list(&env.storage, watched_address@),
            views(r@).no_duplicates(),
            forall|s: Seq<char>|
                views(r@).contains(s) <==> env.storage.subscriptions@.contains_key(
                    (watched_address@, s),
                ),
    {
        storage::get_subscribers(env, &watched_address)
    }
}

impl NotificationRegistryInterface for NotificationRegistry {
    fn subscribe(env: &mut Env, subscriber: Address, watched_address: Address, endpoint_hash: Hash32) -> (r:
        Result<(), Error>) {
        NotificationRegistry::subscribe(env, subscriber, watched_address, endpoint_hash)
    }

    fn unsubscribe(env: &mut Env, subscriber: Address, watched_address: Address) -> (r: Result<
        (),
        Error,
    >) {
        NotificationRegistry::unsubscribe(env, subscriber, watched_address)
    }

    fn subscribers_of(env: &Env, watched_address: Address) -> (r: Vec<Address>) {
        NotificationRegistry::subscribers_of(env, watched_address)
    }
}

} // verus!
