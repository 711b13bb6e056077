pub mod errors;
pub mod events;
pub mod storage;

use vstd::prelude::*;

use crate::filters::{lemma_filter_contains_iff, lemma_filter_step};
use crate::primitives::Address;
pub use errors::Error;
pub use events::{Event, QueueInitialized, RequestEnqueued, RequestsProcessed};
pub use storage::{strictly_increasing, EntryKey, QueueEntry, Storage};

verus! {

broadcast use {vstd::seq_lib::group_to_multiset_ensures, vstd::multiset::group_multiset_axioms};

/// The ledger environment of a batch sweep queue.
pub type Env = crate::env::Env<Storage, Event>;

/// A FIFO queue of pending sweep requests that a relayer drains in batches.
pub struct BatchSweepQueue;

/// `s` is in non-decreasing order.
pub open spec fn sorted(s: Seq<u64>) -> bool {
    forall|i: int, j: int| 0 <= i <= j < s.len() ==> s[i] <= s[j]
}

/// The pending ids that `mark_processed(ids)` keeps.
pub open spec fn kept_by(ids: Seq<u64>) -> spec_fn(u64) -> bool {
    |x: u64| !ids.contains(x)
}

/// The `i`-th item of a batch peeked from `s`.
pub open spec fn batch_item(s: &Storage, i: int) -> (u64, Address, Address) {
    let id = s.pending_ids@[i];
    (id, s.entries@[id].account, s.entries@[id].destination)
}

/// FIFO order: the queue holds requests oldest first (ids are handed out in
/// increasing order, so an older request has a smaller id), a batch is a
/// prefix of the queue, and every request still to be enqueued will be
/// newer than all pending ones.
pub proof fn lemma_queue_is_fifo(s: Storage, i: int, j: int)
    requires
        s.inv(),
        0 <= i < j < s.pending_ids@.len(),
    ensures
        batch_item(&s, i).0 < batch_item(&s, j).0,
        batch_item(&s, j).0 < s.next_id,
{
}

/// Filtering keeps a strictly increasing sequence strictly increasing.
pub proof fn lemma_filter_increasing(s: Seq<u64>, p: spec_fn(u64) -> bool)
    requires
        strictly_increasing(s),
    ensures
        strictly_increasing(s.filter(p)),
    decreases s.len(),
{
    reveal_with_fuel(Seq::filter, 1);
    if s.len() > 0 {
        let d = s.drop_last();
        lemma_filter_increasing(d, p);
        let f = d.filter(p);
        if p(s.last()) {
            assert forall|i: int| 0 <= i < f.len() implies f[i] < s.last() by {
                assert(f.contains(f[i]));
                lemma_filter_contains_iff(d, p, f[i]);
                let j = choose|j: int| 0 <= j < d.len() && d[j] == f[i];
                assert(s[j] == d[j]);
            }
        }
    }
}

/// Sorts a copy of `ids` into non-decreasing order by insertion sort.
fn sort_ids(ids: &Vec<u64>) -> (r: Vec<u64>)
    ensures
        sorted(r@),
        r@.to_multiset() == ids@.to_multiset(),
        r@.len() == ids@.len(),
{
    let mut s: Vec<u64> = Vec::new();
    let mut k: usize = 0;
    while k < ids.len()
        invariant
            k <= ids@.len(),
            s@ == ids@.take(k as int),
        decreases ids@.len() - k,
    {
        s.push(ids[k]);
        k = k + 1;
        assert(s@ =~= ids@.take(k as int));
    }
    assert(s@ =~= ids@);
    let n = s.len();
    if n == 0 {
        return s;
    }
    let mut i: usize = 1;
    while i < n
        invariant
            1 <= i <= n,
            n == s@.len(),
            s@.to_multiset() == ids@.to_multiset(),
            forall|a: int, b: int| 0 <= a <= b < i ==> s@[a] <= s@[b],
        decreases n - i,
    {
        let mut j: usize = i;
        while j > 0 && s[j - 1] > s[j]
            invariant
                0 <= j <= i < n,
                n == s@.len(),
                s@.to_multiset() == ids@.to_multiset(),
                forall|a: int, b: int| 0 <= a <= b < j ==> s@[a] <= s@[b],
                forall|a: int, b: int| j < a <= b <= i ==> s@[a] <= s@[b],
                forall|a: int, b: int| 0 <= a < j && j < b <= i ==> s@[a] <= s@[b],
                forall|b: int| j < b <= i ==> s@[j as int] <= s@[b],
            decreases j,
        {
            let a = s[j - 1];
            let b = s[j];
            let ghost s0 = s@;
            s.set(j - 1, b);
            s.set(j, a);
            proof {
                assert(s@ == s0.update(j - 1, b).update(j as int, a));
                assert(s@.to_multiset() =~= s0.to_multiset());
            }
            j = j - 1;
        }
        proof {
            assert forall|x: int, y: int| 0 <= x <= y < i + 1 implies s@[x] <= s@[y] by {
                if x < j as int && y == j as int {
                    assert(s@[x] <= s@[j - 1]);
                }
            }
        }
        i = i + 1;
    }
    s
}

/// Whether `val` occurs in the non-decreasing sequence `sorted`, by binary
/// search.
pub fn contains_sorted(sorted: &Vec<u64>, val: u64) -> (r: bool)
    requires
        self::sorted(sorted@),
        sorted@.len() <= u32::MAX,
    ensures
        r == sorted@.contains(val),
{
    let len = sorted.len() as u32;
    if len == 0 {
        return false;
    }
    let mut lo: u32 = 0;
    let mut hi: u32 = len - 1;
    loop
        invariant
            len == sorted@.len(),
            self::sorted(sorted@),
            lo <= hi < len,
            forall|i: int| 0 <= i < lo ==> sorted@[i] < val,
            forall|i: int| hi < i < len ==> sorted@[i] > val,
        decreases hi - lo,
    {
        let mid = lo + (hi - lo) / 2;
        let mid_val = sorted[mid as usize];
        if mid_val == val {
            assert(sorted@[mid as int] == val);
            return true;
        } else if mid_val < val {
            if mid == hi {
                proof {
                    assert forall|i: int| 0 <= i < sorted@.len() implies sorted@[i] != val by {
                        if i <= mid {
                            assert(sorted@[i] <= sorted@[mid as int]);
                        }
                    }
                }
                return false;
            }
            proof {
                assert forall|i: int| 0 <= i < mid + 1 implies sorted@[i] < val by {
                    assert(sorted@[i] <= sorted@[mid as int]);
                }
            }
            lo = mid + 1;
        } else {
            if mid == 0 {
                proof {
                    assert forall|i: int| 0 <= i < sorted@.len() implies sorted@[i] != val by {
                        assert(sorted@[mid as int] <= sorted@[i]);
                    }
                }
                return false;
            }
            proof {
                assert forall|i: int| mid - 1 < i < len implies sorted@[i] > val by {
                    assert(sorted@[mid as int] <= sorted@[i]);
                }
            }
            hi = mid - 1;
        }
        if lo > hi {
            return false;
        }
    }
}

impl BatchSweepQueue {
    /// Sets the admin that may mark requests processed. Can only be called once.
    pub fn initialize(env: &mut Env, admin: Address) -> (r: Result<(), Error>)
        requires
            old(env).storage.inv(),
        ensures
            final(env).storage.inv(),
            old(env).storage.admin is Some <==> r == Err::<(), Error>(Error::AlreadyInitialized),
            r is Ok <==> old(env).storage.admin is None,
            r is Err ==> *final(env) == *old(env),
            r is Ok ==> {
                &&& final(env).storage.admin == Some(admin)
                &&& final(env).storage.next_id == old(env).storage.next_id
                &&& final(env).storage.pending_ids == old(env).storage.pending_ids
                &&& final(env).storage.entries == old(env).storage.entries
                &&& final(env).auths@ == old(env).auths@.push(admin)
                &&& final(env).events@ == old(env).events@.push(
                    Event::Initialized(QueueInitialized { admin }),
                )
                &&& final(env).ledger_sequence == old(env).ledger_sequence
            },
    {
        if storage::has_admin(env) {
            return Err(Error::AlreadyInitialized);
        }
        env.require_auth(&admin);
        storage::set_admin(env, &admin);
        events::emit_initialized(env, admin);
        Ok(())
    }

    /// Appends a sweep request to the back of the queue and returns its id.
    /// Ids count up from 0. Anyone may enqueue.
    pub fn enqueue(env: &mut Env, account: Address, destination: Address) -> (r: Result<
        u64,
        Error,
    >)
        requires
            old(env).storage.inv(),
            old(env).storage.admin is Some ==> old(env).storage.next_id < u64::MAX,
            old(env).storage.admin is Some ==> old(env).storage.pending_ids@.len() < u32::MAX,
        ensures
            final(env).storage.inv(),
            old(env).storage.admin is None <==> r == Err::<u64, Error>(Error::NotInitialized),
            r is Ok <==> old(env).storage.admin is Some,
            r is Err ==> *final(env) == *old(env),
            r is Ok ==> {
                let id = old(env).storage.next_id;
                &&& r == Ok::<u64, Error>(id)
                &&& final(env).storage.next_id == id + 1
                &&& final(env).storage.pending_ids@ == old(env).storage.pending_ids@.push(id)
                &&& final(env).storage.entries@ == old(env).storage.entries@.insert(
                    id,
                    QueueEntry { account, destination },
                )
                &&& final(env).storage.admin == old(env).storage.admin
                &&& final(env).auths@ == old(env).auths@
                &&& final(env).events@ == old(env).events@.push(
                    Event::Enqueued(RequestEnqueued { id, account, destination }),
                )
                &&& final(env).ledger_sequence == old(env).ledger_sequence
            },
    {
        if !storage::has_admin(env) {
            return Err(Error::NotInitialized);
        }
        let ghost s0 = env.storage;
        let id = storage::get_next_id(env);
        storage::set_next_id(env, id + 1);
        let entry = QueueEntry { account: account.clone(), destination: destination.clone() };
        storage::set_entry(env, id, &entry);
        let mut pending = storage::get_pending_ids(env);
        pending.push(id);
        storage::set_pending_ids(env, pending);
        proof {
            let p = env.storage.pending_ids@;
            assert(p == s0.pending_ids@.push(id));
            assert forall|x: u64| #[trigger]
                env.storage.entries@.contains_key(x) <==> p.contains(x) by {
                if p.contains(x) && x != id {
                    let j = choose|j: int| 0 <= j < p.len() && p[j] == x;
                    assert(s0.pending_ids@[j] == x);
                }
                if s0.pending_ids@.contains(x) {
                    let j = choose|j: int| 0 <= j < s0.pending_ids@.len() && s0.pending_ids@[j] == x;
                    assert(p[j] == x);
                }
                assert(p[p.len() - 1] == id);
            }
        }
        events::emit_enqueued(env, id, account, destination);
        Ok(id)
    }

    /// Returns up to `max` pending requests from the front of the queue, as
    /// `(id, account, destination)`, oldest first, without removing them.
    pub fn peek_batch(env: &Env, max: u32) -> (r: Result<Vec<(u64, Address, Address)>, Error>)
        requires
            env.storage.inv(),
        ensures
            env.storage.admin is None ==> (r matches Err(e) && e == Error::NotInitialized),
            env.storage.admin is Some && max == 0 ==> (r matches Err(e) && e
                == Error::InvalidBatchSize),
            r is Ok <==> env.storage.admin is Some && max != 0,
            r matches Ok(v) ==> {
                &&& v@.len() == (if max < env.storage.pending_ids@.len() {
                    max as int
                } else {
                    env.storage.pending_ids@.len() as int
                })
                &&& forall|i: int| 0 <= i < v@.len() ==> v@[i] == batch_item(&env.storage, i)
            },
    {
        if !storage::has_admin(env) {
            return Err(Error::NotInitialized);
        }
        if max == 0 {
            return Err(Error::InvalidBatchSize);
        }
        let pending = storage::get_pending_ids(env);
        let mut result: Vec<(u64, Address, Address)> = Vec::new();
        let limit: usize = if (max as usize) < pending.len() {
            max as usize
        } else {
            pending.len()
        };
        let mut i: usize = 0;
        while i < limit
            invariant
                i <= limit <= pending@.len(),
                pending@ == env.storage.pending_ids@,
                env.storage.inv(),
                result@.len() == i,
                forall|k: int| 0 <= k < i ==> result@[k] == batch_item(&env.storage, k),
            decreases limit - i,
        {
            let id = pending[i];
            assert(pending@.contains(id));
            if let Some(entry) = storage::get_entry(env, id) {
                result.push((id, entry.account, entry.destination));
            }
            i = i + 1;
        }
        Ok(result)
    }

    /// Removes the requests whose ids are listed in `ids`, keeping the order
    /// of the rest. Ids that are not pending are ignored. Only the admin may
    /// call this.
    pub fn mark_processed(env: &mut Env, admin: Address, ids: Vec<u64>) -> (r: Result<
        (),
        Error,
    >)
        requires
            old(env).storage.inv(),
            ids@.len() <= u32::MAX,
        ensures
            final(env).storage.inv(),
            old(env).storage.admin is None ==> r == Err::<(), Error>(Error::NotInitialized),
            old(env).storage.admin matches Some(a) && a@ != admin@ ==> r == Err::<(), Error>(
                Error::Unauthorized,
            ),
            r is Ok <==> (old(env).storage.admin matches Some(a) && a@ == admin@),
            r is Err ==> *final(env) == *old(env),
            r is Ok ==> {
                let kept = old(env).storage.pending_ids@.filter(kept_by(ids@));
                &&& final(env).storage.pending_ids@ == kept
                &&& final(env).storage.entries@ == old(env).storage.entries@.remove_keys(
                    ids@.to_set(),
                )
                &&& final(env).storage.admin == old(env).storage.admin
                &&& final(env).storage.next_id == old(env).storage.next_id
                &&& final(env).auths@ == old(env).auths@.push(admin)
                &&& final(env).events@ == old(env).events@.push(
                    Event::Processed(
                        RequestsProcessed {
                            count: (old(env).storage.pending_ids@.len() - kept.len()) as u32,
                        },
                    ),
                )
                &&& final(env).ledger_sequence == old(env).ledger_sequence
            },
    {
        let stored_admin = match storage::get_admin(env) {
            Some(a) => a,
            None => return Err(Error::NotInitialized),
        };
        if !admin.same_as(&stored_admin) {
            return Err(Error::Unauthorized);
        }
        env.require_auth(&admin);
        let sorted_ids = sort_ids(&ids);
        proof {
            assert forall|x: u64| sorted_ids@.contains(x) <==> ids@.contains(x) by {
                assert(sorted_ids@.to_multiset().count(x) == ids@.to_multiset().count(x));
            }
        }
        let ghost e0 = env.storage.entries@;
        let ghost s0 = env.storage;
        let ghost env1 = *env;
        let ghost p = kept_by(ids@);
        let pending = storage::get_pending_ids(env);
        let mut new_pending: Vec<u64> = Vec::new();
        let mut removed: u32 = 0;
        let mut k: usize = 0;
        while k < pending.len()
            invariant
                k <= pending@.len(),
                pending@ == s0.pending_ids@,
                s0.inv(),
                e0 == s0.entries@,
                forall|x: u64| sorted_ids@.contains(x) <==> ids@.contains(x),
                sorted(sorted_ids@),
                sorted_ids@.len() <= u32::MAX,
                env.storage.entries.wf(),
                env.storage.admin == s0.admin,
                env.storage.next_id == s0.next_id,
                env.storage.pending_ids == s0.pending_ids,
                p == kept_by(ids@),
                env.auths@ == env1.auths@,
                env.events@ == env1.events@,
                env.ledger_sequence == env1.ledger_sequence,
                new_pending@ == pending@.take(k as int).filter(p),
                removed == k - new_pending@.len(),
                forall|x: u64| #[trigger]
                    env.storage.entries@.contains_key(x) ==> e0.contains_key(x)
                        && env.storage.entries@[x] == e0[x],
                forall|j: int|
                    k <= j < pending@.len() ==> #[trigger] env.storage.entries@.contains_key(
                        pending@[j],
                    ),
                forall|j: int|
                    0 <= j < k ==> (#[trigger] env.storage.entries@.contains_key(pending@[j])
                        <==> !ids@.contains(pending@[j])),
            decreases pending@.len() - k,
        {
            let id = pending[k];
            proof {
                lemma_filter_step(pending@, p, k as int);
                pending@.take(k as int).lemma_filter_len(p);
                assert(p(id) == !ids@.contains(id));
            }
            if contains_sorted(&sorted_ids, id) {
                storage::remove_entry(env, id);
                removed = removed + 1;
                proof {
                    assert forall|j: int| k < j < pending@.len() implies #[trigger]
                        env.storage.entries@.contains_key(pending@[j]) by {
                        assert(pending@[j] != id);
                    }
                    assert forall|j: int| 0 <= j < k + 1 implies (
                    #[trigger] env.storage.entries@.contains_key(pending@[j]) <==> !ids@.contains(
                        pending@[j],
                    )) by {
                        if j < k {
                            assert(pending@[j] != id);
                        }
                    }
                }
            } else {
                new_pending.push(id);
                proof {
                    assert(pending@.contains(id));
                }
            }
            k = k + 1;
        }
        let ghost kept = pending@.filter(p);
        proof {
            assert(pending@.take(pending@.len() as int) =~= pending@);
            lemma_filter_increasing(pending@, p);
            assert forall|x: u64| #[trigger]
                env.storage.entries@.contains_key(x) <==> pending@.contains(x) && !ids@.contains(
                    x,
                ) by {
                if pending@.contains(x) {
                    let j = choose|j: int| 0 <= j < pending@.len() && pending@[j] == x;
                    assert(env.storage.entries@.contains_key(pending@[j]) <==> !ids@.contains(
                        pending@[j],
                    ));
                }
                if env.storage.entries@.contains_key(x) {
                    assert(e0.contains_key(x));
                }
            }
            assert forall|x: u64| #[trigger]
                env.storage.entries@.contains_key(x) <==> kept.contains(x) by {
                lemma_filter_contains_iff(pending@, p, x);
            }
            assert forall|i: int| 0 <= i < kept.len() implies kept[i] < s0.next_id by {
                assert(kept.contains(kept[i]));
                lemma_filter_contains_iff(pending@, p, kept[i]);
                let j = choose|j: int| 0 <= j < pending@.len() && pending@[j] == kept[i];
            }
            pending@.lemma_filter_len(p);
            assert(env.storage.entries@ =~= e0.remove_keys(ids@.to_set())) by {
                assert forall|x: u64| #[trigger]
                    env.storage.entries@.contains_key(x) == e0.remove_keys(
                        ids@.to_set(),
                    ).contains_key(x) by {
                }
            }
        }
        storage::set_pending_ids(env, new_pending);
        events::emit_processed(env, removed);
        Ok(())
    }

    /// The number of pending requests.
    pub fn queue_length(env: &Env) -> (r: Result<u32, Error>)
        requires
            env.storage.inv(),
        ensures
            env.storage.admin is None ==> r == Err::<u32, Error>(Error::NotInitialized),
            env.storage.admin is Some ==> r == Ok::<u32, Error>(
                env.storage.pending_ids@.len() as u32,
            ),
    {
        if !storage::has_admin(env) {
            return Err(Error::NotInitialized);
        }
        Ok(env.storage.pending_ids.len() as u32)
    }

    /// The admin, once initialized.
    pub fn get_admin(env: &Env) -> (r: Option<Address>)
        ensures
            r == env.storage.admin,
    {
        storage::get_admin(env)
    }
}

} // verus!
