pub mod errors;
pub mod events;
pub mod storage;

use vstd::prelude::*;

use crate::address_list::views;
use crate::primitives::{Address, Symbol};
use crate::store::Store;
pub use errors::Error;
pub use events::Event;
pub use storage::{paused_flag, Storage};

verus! {

/// The ledger environment of a pause guardian.
pub type Env = crate::env::Env<Storage, Event>;

/// Pauses and unpauses named scopes once a threshold of guardians agree.
pub struct PauseGuardian;

/// The number of entries of `list` (counted with repetition) whose
/// `(scope, guardian)` approval is in `approvals`.
pub open spec fn approvals_among(
    list: Seq<Address>,
    approvals: Map<(Seq<char>, Seq<char>), ()>,
    scope: Seq<char>,
) -> nat
    decreases list.len(),
{
    if list.len() == 0 {
        0
    } else {
        approvals_among(list.drop_last(), approvals, scope) + if approvals.contains_key(
            (scope, list.last()@),
        ) {
            1nat
        } else {
            0nat
        }
    }
}

/// The `(scope, guardian)` approval keys of the guardians in `list`.
pub open spec fn scope_keys(list: Seq<Address>, scope: Seq<char>) -> Set<(Seq<char>, Seq<char>)> {
    Set::new(|k: (Seq<char>, Seq<char>)| k.0 == scope && views(list).contains(k.1))
}

/// What `require_guardian` refuses, if anything.
pub open spec fn guardian_error(s: &Storage, guardian: Seq<char>) -> Option<Error> {
    match s.guardians {
        None => Some(Error::NotInitialized),
        Some(g) => if views(g@).contains(guardian) {
            None
        } else {
            Some(Error::Unauthorized)
        },
    }
}

/// What `initialize` refuses, if anything.
pub open spec fn initialize_error(s: &Storage, guardian_count: nat, threshold: u32) -> Option<Error> {
    if s.guardians is Some {
        Some(Error::AlreadyInitialized)
    } else if guardian_count == 0 {
        Some(Error::InvalidGuardians)
    } else if threshold == 0 || threshold > guardian_count {
        Some(Error::InvalidThreshold)
    } else {
        None
    }
}

/// `initialize` accepts every threshold from 1 up to the number of guardians,
/// unanimity included, and no other: on storage that is not initialized,
/// with a non-empty guardian list, it succeeds exactly when
/// `1 <= threshold <= guardian_count`.
pub proof fn lemma_initialize_threshold_range(s: Storage, guardian_count: nat, threshold: u32)
    requires
        s.guardians is None,
        guardian_count > 0,
    ensures
        initialize_error(&s, guardian_count, threshold) is None <==> 1 <= threshold
            <= guardian_count,
        !(1 <= threshold <= guardian_count) ==> initialize_error(&s, guardian_count, threshold)
            == Some(Error::InvalidThreshold),
{
}

/// The state after a guardian's new approval for `scope` has been added to
/// `approvals`: whether the scope flips, and the approvals left.
pub open spec fn vote_result(
    s: &Storage,
    approvals: Map<(Seq<char>, Seq<char>), ()>,
    scope: Seq<char>,
    guardian: Seq<char>,
) -> (bool, Map<(Seq<char>, Seq<char>), ()>) {
    let g = s.guardians->Some_0@;
    let a1 = approvals.insert((scope, guardian), ());
    if approvals_among(g, a1, scope) >= s.threshold->Some_0 {
        (true, a1.remove_keys(scope_keys(g, scope)))
    } else {
        (false, a1)
    }
}

/// Removing every approval key of `g` for `scope` leaves none of the
/// guardians of `list` (all among `g`) approving it.
proof fn lemma_cleared_approvals(
    list: Seq<Address>,
    g: Seq<Address>,
    approvals: Map<(Seq<char>, Seq<char>), ()>,
    scope: Seq<char>,
)
    requires
        forall|i: int| 0 <= i < list.len() ==> views(g).contains(#[trigger] list[i]@),
    ensures
        approvals_among(list, approvals.remove_keys(scope_keys(g, scope)), scope) == 0,
    decreases list.len(),
{
    if list.len() > 0 {
        let d = list.drop_last();
        assert forall|i: int| 0 <= i < d.len() implies views(g).contains(#[trigger] d[i]@) by {
            assert(d[i] == list[i]);
        }
        lemma_cleared_approvals(d, g, approvals, scope);
        assert(views(g).contains(list[list.len() - 1]@));
        assert(scope_keys(g, scope).contains((scope, list.last()@)));
    }
}

/// A vote flips a scope exactly when, with it, the guardians' approvals
/// reach the threshold; and a flip clears every guardian's approval for the
/// scope, so the next flip needs the threshold of fresh approvals again.
pub proof fn lemma_vote_flips_at_threshold(
    s: Storage,
    approvals: Map<(Seq<char>, Seq<char>), ()>,
    scope: Seq<char>,
    guardian: Seq<char>,
)
    requires
        s.inv(),
        s.guardians is Some,
    ensures
        vote_result(&s, approvals, scope, guardian).0 <==> approvals_among(
            s.guardians->Some_0@,
            approvals.insert((scope, guardian), ()),
            scope,
        ) >= s.threshold->Some_0,
        vote_result(&s, approvals, scope, guardian).0 ==> approvals_among(
            s.guardians->Some_0@,
            vote_result(&s, approvals, scope, guardian).1,
            scope,
        ) == 0,
{
    let g = s.guardians->Some_0@;
    assert forall|i: int| 0 <= i < g.len() implies views(g).contains(#[trigger] g[i]@) by {
        assert(views(g)[i] == g[i]@);
    }
    lemma_cleared_approvals(g, g, approvals.insert((scope, guardian), ()), scope);
}

/// The guardians of `list` whose `(scope, guardian)` approval is in
/// `approvals`.
pub open spec fn approving(
    list: Seq<Address>,
    approvals: Map<(Seq<char>, Seq<char>), ()>,
    scope: Seq<char>,
) -> Set<Seq<char>> {
    Set::new(|x: Seq<char>| views(list).contains(x) && approvals.contains_key((scope, x)))
}

/// Over a list without repeated guardians, the approval count is the number
/// of approving guardians.
pub proof fn lemma_approvals_count_guardians(
    list: Seq<Address>,
    approvals: Map<(Seq<char>, Seq<char>), ()>,
    scope: Seq<char>,
)
    requires
        views(list).no_duplicates(),
    ensures
        approving(list, approvals, scope).finite(),
        approvals_among(list, approvals, scope) == approving(list, approvals, scope).len(),
    decreases list.len(),
{
    let a = approving(list, approvals, scope);
    if list.len() == 0 {
        assert(a =~= Set::<Seq<char>>::empty());
    } else {
        let d = list.drop_last();
        let l = list.last()@;
        assert(views(d) =~= views(list).drop_last());
        assert(views(list) =~= views(d).push(l));
        assert(views(d).no_duplicates()) by {
            assert forall|i: int, j: int|
                0 <= i < views(d).len() && 0 <= j < views(d).len() && i != j implies views(d)[i]
                != views(d)[j] by {
                assert(views(d)[i] == views(list)[i]);
                assert(views(d)[j] == views(list)[j]);
            }
        }
        lemma_approvals_count_guardians(d, approvals, scope);
        let ad = approving(d, approvals, scope);
        assert(!views(d).contains(l)) by {
            if views(d).contains(l) {
                let i = choose|i: int| 0 <= i < views(d).len() && views(d)[i] == l;
                assert(views(list)[i] == views(list)[views(list).len() - 1]);
            }
        }
        let vl = views(list);
        let vd = views(d);
        assert forall|x: Seq<char>| vl.contains(x) <==> (vd.contains(x) || x == l) by {
            if vl.contains(x) {
                let i = choose|i: int| 0 <= i < vl.len() && vl[i] == x;
                if i < vd.len() {
                    assert(vd[i] == x);
                }
            }
            if vd.contains(x) {
                let i = choose|i: int| 0 <= i < vd.len() && vd[i] == x;
                assert(vl[i] == x);
            }
            if x == l {
                assert(vl[vl.len() - 1] == l);
            }
        }
        if approvals.contains_key((scope, l)) {
            assert(a =~= ad.insert(l));
        } else {
            assert(a =~= ad);
        }
    }
}

/// The pause and unpause rule, counted by guardians: when the guardians are
/// listed once each, a guardian's vote flips the scope exactly when the
/// guardians approving it, with the voter, reach the threshold. A flip
/// leaves no approval of the scope pending; otherwise the pending approvals
/// of the scope are the earlier ones plus the voter's. Other scopes' pending
/// approvals are untouched either way.
pub proof fn lemma_vote_flips_by_guardian_count(
    s: Storage,
    approvals: Map<(Seq<char>, Seq<char>), ()>,
    scope: Seq<char>,
    guardian: Seq<char>,
    other: (Seq<char>, Seq<char>),
)
    requires
        s.inv(),
        s.guardians is Some,
        views(s.guardians->Some_0@).no_duplicates(),
        views(s.guardians->Some_0@).contains(guardian),
    ensures
        ({
            let g = s.guardians->Some_0@;
            let (flips, left) = vote_result(&s, approvals, scope, guardian);
            let before = approving(g, approvals, scope);
            &&& before.insert(guardian).finite()
            &&& flips <==> before.insert(guardian).len() >= s.threshold->Some_0
            &&& flips ==> approving(g, left, scope) == Set::<Seq<char>>::empty()
            &&& !flips ==> approving(g, left, scope) == before.insert(guardian)
            &&& other.0 != scope ==> (left.contains_key(other) <==> approvals.contains_key(other))
        }),
{
    let g = s.guardians->Some_0@;
    let a1 = approvals.insert((scope, guardian), ());
    lemma_approvals_count_guardians(g, approvals, scope);
    lemma_approvals_count_guardians(g, a1, scope);
    assert(approving(g, a1, scope) =~= approving(g, approvals, scope).insert(guardian));
    lemma_vote_flips_at_threshold(s, approvals, scope, guardian);
    let (flips, left) = vote_result(&s, approvals, scope, guardian);
    if flips {
        lemma_approvals_count_guardians(g, left, scope);
        approving(g, left, scope).lemma_len0_is_empty();
    }
}

/// Right after initialization no scope is paused.
pub proof fn lemma_initialize_pauses_nothing(pre: Storage, post: Storage, scope: Seq<char>)
    requires
        pre.inv(),
        pre.guardians is None,
        post.paused == pre.paused,
    ensures
        !paused_flag(&post, scope),
{
    assert(!pre.paused@.dom().contains(scope));
}

fn count_in(list: &Vec<Address>, approvals: &Store<(Symbol, Address), ()>, scope: &Symbol) -> (r: u32)
    requires
        approvals.wf(),
        list@.len() <= u32::MAX,
    ensures
        r == approvals_among(list@, approvals@, scope@),
{
    let mut count: u32 = 0;
    let mut i: usize = 0;
    while i < list.len()
        invariant
            i <= list@.len() <= u32::MAX,
            approvals.wf(),
            count == approvals_among(list@.take(i as int), approvals@, scope@),
            count <= i,
        decreases list@.len() - i,
    {
        assert(list@.take(i + 1).drop_last() =~= list@.take(i as int));
        if approvals.contains_key(&(scope.clone(), list[i].clone())) {
            count = count + 1;
        }
        i = i + 1;
    }
    assert(list@.take(list@.len() as int) =~= list@);
    count
}

impl PauseGuardian {
    /// Sets the guardians and the threshold; the first guardian must
    /// authorize the call. Can only be called once.
    pub fn initialize(env: &mut Env, guardians: Vec<Address>, threshold: u32) -> (r: Result<
        (),
        Error,
    >)
        requires
            old(env).storage.inv(),
            guardians@.len() <= u32::MAX,
        ensures
            final(env).storage.inv(),
            match initialize_error(&old(env).storage, guardians@.len(), threshold) {
                Some(e) => r == Err::<(), Error>(e) && *final(env) == *old(env),
                None => {
                    &&& r == Ok::<(), Error>(())
                    &&& final(env).storage.guardians->Some_0@ == guardians@
                    &&& final(env).storage.threshold == Some(threshold)
                    &&& final(env).storage.paused == old(env).storage.paused
                    &&& final(env).storage.pause_approvals == old(env).storage.pause_approvals
                    &&& final(env).storage.unpause_approvals == old(env).storage.unpause_approvals
                    &&& final(env).auths@ == old(env).auths@.push(guardians@[0])
                    &&& final(env).events@ == old(env).events@
                    &&& final(env).ledger_sequence == old(env).ledger_sequence
                },
            },
            old(env).storage.guardians is None && guardians@.len() > 0 && 1 <= threshold
                <= guardians@.len() ==> r is Ok,
    {
        if storage::get_guardians(env).is_some() {
            return Err(Error::AlreadyInitialized);
        }
        if guardians.len() == 0 {
            return Err(Error::InvalidGuardians);
        }
        if threshold == 0 {
            return Err(Error::InvalidThreshold);
        }
        if threshold as usize > guardians.len() {
            return Err(Error::InvalidThreshold);
        }
        let first_guardian = guardians[0].clone();
        env.require_auth(&first_guardian);
        storage::set_guardians(env, &guardians);
        storage::set_threshold(env, threshold);
        Ok(())
    }

    /// Approves pausing `scope`. Once the guardians that approved reach the
    /// threshold, the scope is paused and its pause approvals are cleared.
    /// A guardian approving twice changes nothing.
    pub fn pause(env: &mut Env, guardian: Address, scope: Symbol) -> (r: Result<(), Error>)
        requires
            old(env).storage.inv(),
        ensures
            final(env).storage.inv(),
            guardian_error(&old(env).storage, guardian@) matches Some(e) ==> r == Err::<(), Error>(
                e,
            ),
            guardian_error(&old(env).storage, guardian@) is None && paused_flag(
                &old(env).storage,
                scope@,
            ) ==> r == Err::<(), Error>(Error::AlreadyPaused),
            r is Ok <==> guardian_error(&old(env).storage, guardian@) is None && !paused_flag(
                &old(env).storage,
                scope@,
            ),
            r is Err ==> *final(env) == *old(env),
            r is Ok ==> {
                let s = old(env).storage;
                &&& final(env).auths@ == old(env).auths@.push(guardian)
                &&& final(env).ledger_sequence == old(env).ledger_sequence
                &&& final(env).storage.guardians == s.guardians
                &&& final(env).storage.threshold == s.threshold
                &&& final(env).storage.unpause_approvals == s.unpause_approvals
                &&& if s.pause_approvals@.contains_key((scope@, guardian@)) {
                    &&& final(env).storage.paused == s.paused
                    &&& final(env).storage.pause_approvals == s.pause_approvals
                    &&& final(env).events@ == old(env).events@
                } else {
                    let (flips, left) = vote_result(&s, s.pause_approvals@, scope@, guardian@);
                    &&& final(env).storage.pause_approvals@ == left
                    &&& if flips {
                        &&& final(env).storage.paused@ == s.paused@.insert(scope@, true)
                        &&& final(env).events@ == old(env).events@.push(
                            Event::Paused(scope, guardian),
                        )
                    } else {
                        &&& final(env).storage.paused == s.paused
                        &&& final(env).events@ == old(env).events@
                    }
                }
            },
    {
        Self::require_guardian(env, &guardian)?;
        if storage::is_paused(env, &scope) {
            return Err(Error::AlreadyPaused);
        }
        env.require_auth(&guardian);
        if storage::has_pause_approval(env, &scope, &guardian) {
            return Ok(());
        }
        storage::set_pause_approval(env, &scope, &guardian);
        let approvals = Self::count_pause_approvals(env, &scope);
        let threshold = match storage::get_threshold(env) {
            Some(t) => t,
            None => return Err(Error::NotInitialized),
        };
        if approvals >= threshold {
            storage::set_paused(env, &scope, true);
            Self::clear_pause_approvals(env, &scope);
            events::emit_paused(env, scope, guardian);
        }
        Ok(())
    }

    /// Approves unpausing `scope`. Once the guardians that approved reach the
    /// threshold, the scope is unpaused and its unpause approvals are
    /// cleared. A guardian approving twice changes nothing.
    pub fn unpause(env: &mut Env, guardian: Address, scope: Symbol) -> (r: Result<(), Error>)
        requires
            old(env).storage.inv(),
        ensures
            final(env).storage.inv(),
            guardian_error(&old(env).storage, guardian@) matches Some(e) ==> r == Err::<(), Error>(
                e,
            ),
            guardian_error(&old(env).storage, guardian@) is None && !paused_flag(
                &old(env).storage,
                scope@,
            ) ==> r == Err::<(), Error>(Error::AlreadyUnpaused),
            r is Ok <==> guardian_error(&old(env).storage, guardian@) is None && paused_flag(
                &old(env).storage,
                scope@,
            ),
            r is Err ==> *final(env) == *old(env),
            r is Ok ==> {
                let s = old(env).storage;
                &&& final(env).auths@ == old(env).auths@.push(guardian)
                &&& final(env).ledger_sequence == old(env).ledger_sequence
                &&& final(env).storage.guardians == s.guardians
                &&& final(env).storage.threshold == s.threshold
                &&& final(env).storage.pause_approvals == s.pause_approvals
                &&& if s.unpause_approvals@.contains_key((scope@, guardian@)) {
                    &&& final(env).storage.paused == s.paused
                    &&& final(env).storage.unpause_approvals == s.unpause_approvals
                    &&& final(env).events@ == old(env).events@
                } else {
                    let (flips, left) = vote_result(&s, s.unpause_approvals@, scope@, guardian@);
                    &&& final(env).storage.unpause_approvals@ == left
                    &&& if flips {
                        &&& final(env).storage.paused@ == s.paused@.insert(scope@, false)
                        &&& final(env).events@ == old(env).events@.push(
                            Event::Unpaused(scope, guardian),
                        )
                    } else {
                        &&& final(env).storage.paused == s.paused
                        &&& final(env).events@ == old(env).events@
                    }
                }
            },
    {
        Self::require_guardian(env, &guardian)?;
        if !storage::is_paused(env, &scope) {
            return Err(Error::AlreadyUnpaused);
        }
        env.require_auth(&guardian);
        if storage::has_unpause_approval(env, &scope, &guardian) {
            return Ok(());
        }
        storage::set_unpause_approval(env, &scope, &guardian);
        let approvals = Self::count_unpause_approvals(env, &scope);
        let threshold = match storage::get_threshold(env) {
            Some(t) => t,
            None => return Err(Error::NotInitialized),
        };
        if approvals >= threshold {
            storage::set_paused(env, &scope, false);
            Self::clear_unpause_approvals(env, &scope);
            events::emit_unpaused(env, scope, guardian);
        }
        Ok(())
    }

    /// Whether `scope` is paused.
    pub fn is_paused(env: &Env, scope: Symbol) -> (r: bool)
        requires
            env.storage.inv(),
        ensures
            r == paused_flag(&env.storage, scope@),
    {
        storage::is_paused(env, &scope)
    }

    /// Checks that `guardian` is one of the guardians.
    pub fn require_guardian(env: &Env, guardian: &Address) -> (r: Result<(), Error>)
        ensures
            match guardian_error(&env.storage, guardian@) {
                Some(e) => r == Err::<(), Error>(e),
                None => r == Ok::<(), Error>(()),
            },
    {
        let guardians = match storage::get_guardians(env) {
            Some(g) => g,
            None => return Err(Error::NotInitialized),
        };
        let mut i: usize = 0;
        while i < guardians.len()
            invariant
                i <= guardians@.len(),
                env.storage.guardians matches Some(g) && g@ == guardians@,
                forall|j: int| 0 <= j < i ==> guardians@[j]@ != guardian@,
            decreases guardians@.len() - i,
        {
            if guardians[i].same_as(guardian) {
                proof {
                    crate::address_list::lemma_views_contains(guardians@, guardian@);
                }
                return Ok(());
            }
            i = i + 1;
        }
        proof {
            crate::address_list::lemma_views_contains(guardians@, guardian@);
        }
        Err(Error::Unauthorized)
    }

    /// How many guardians (counted as listed) approved pausing `scope`.
    pub fn count_pause_approvals(env: &Env, scope: &Symbol) -> (r: u32)
        requires
            env.storage.inv(),
        ensures
            r == match env.storage.guardians {
                None => 0,
                Some(g) => approvals_among(g@, env.storage.pause_approvals@, scope@),
            },
    {
        let guardians = match storage::get_guardians(env) {
            Some(value) => value,
            None => return 0,
        };
        count_in(&guardians, &env.storage.pause_approvals, scope)
    }

    /// How many guardians (counted as listed) approved unpausing `scope`.
    pub fn count_unpause_approvals(env: &Env, scope: &Symbol) -> (r: u32)
        requires
            env.storage.inv(),
        ensures
            r == match env.storage.guardians {
                None => 0,
                Some(g) => approvals_among(g@, env.storage.unpause_approvals@, scope@),
            },
    {
        let guardians = match storage::get_guardians(env) {
            Some(value) => value,
            None => return 0,
        };
        count_in(&guardians, &env.storage.unpause_approvals, scope)
    }

    /// Removes every guardian's pause approval for `scope`.
    pub fn clear_pause_approvals(env: &mut Env, scope: &Symbol)
        requires
            old(env).storage.inv(),
        ensures
            final(env).storage.inv(),
            old(env).storage.guardians matches Some(g) ==> final(env).storage.pause_approvals@
                == old(env).storage.pause_approvals@.remove_keys(scope_keys(g@, scope@)),
            old(env).storage.guardians is None ==> final(env).storage.pause_approvals
                == old(env).storage.pause_approvals,
            final(env).storage.guardians == old(env).storage.guardians,
            final(env).storage.threshold == old(env).storage.threshold,
            final(env).storage.paused == old(env).storage.paused,
            final(env).storage.unpause_approvals == old(env).storage.unpause_approvals,
            final(env).events@ == old(env).events@,
            final(env).auths@ == old(env).auths@,
            final(env).ledger_sequence == old(env).ledger_sequence,
    {
        if let Some(guardians) = storage::get_guardians(env) {
            let ghost a0 = env.storage.pause_approvals@;
            let ghost e0 = *env;
            let mut i: usize = 0;
            while i < guardians.len()
                invariant
                    i <= guardians@.len(),
                    guardians@ == e0.storage.guardians->Some_0@,
                    e0.storage.inv(),
                    a0 == e0.storage.pause_approvals@,
                    env.storage.pause_approvals.wf(),
                    forall|k: (Seq<char>, Seq<char>)| #[trigger]
                        env.storage.pause_approvals@.contains_key(k) <==> a0.contains_key(k) && !(
                        k.0 == scope@ && views(guardians@.take(i as int)).contains(k.1)),
                    env.storage.guardians == e0.storage.guardians,
                    env.storage.threshold == e0.storage.threshold,
                    env.storage.paused == e0.storage.paused,
                    env.storage.unpause_approvals == e0.storage.unpause_approvals,
                    env.events@ == e0.events@,
                    env.auths@ == e0.auths@,
                    env.ledger_sequence == e0.ledger_sequence,
                decreases guardians@.len() - i,
            {
                storage::remove_pause_approval(env, scope, &guardians[i]);
                proof {
                    assert(views(guardians@.take(i + 1)) =~= views(guardians@.take(i as int)).push(
                        guardians@[i as int]@,
                    ));
                    assert forall|k: (Seq<char>, Seq<char>)| #[trigger]
                        env.storage.pause_approvals@.contains_key(k) <==> a0.contains_key(k) && !(
                        k.0 == scope@ && views(guardians@.take(i + 1)).contains(k.1)) by {
                        let v0 = views(guardians@.take(i as int));
                        let v1 = views(guardians@.take(i + 1));
                        if v1.contains(k.1) && k.1 != guardians@[i as int]@ {
                            let j = choose|j: int| 0 <= j < v1.len() && v1[j] == k.1;
                            assert(v0[j] == k.1);
                        }
                        if v0.contains(k.1) {
                            let j = choose|j: int| 0 <= j < v0.len() && v0[j] == k.1;
                            assert(v1[j] == k.1);
                        }
                        assert(v1[i as int] == guardians@[i as int]@);
                    }
                }
                i = i + 1;
            }
            assert(guardians@.take(guardians@.len() as int) =~= guardians@);
            assert(env.storage.pause_approvals@ =~= a0.remove_keys(scope_keys(guardians@, scope@)));
        }
    }

    /// Removes every guardian's unpause approval for `scope`.
    pub fn clear_unpause_approvals(env: &mut Env, scope: &Symbol)
        requires
            old(env).storage.inv(),
        ensures
            final(env).storage.inv(),
            old(env).storage.guardians matches Some(g) ==> final(env).storage.unpause_approvals@
                == old(env).storage.unpause_approvals@.remove_keys(scope_keys(g@, scope@)),
            old(env).storage.guardians is None ==> final(env).storage.unpause_approvals
                == old(env).storage.unpause_approvals,
            final(env).storage.guardians == old(env).storage.guardians,
            final(env).storage.threshold == old(env).storage.threshold,
            final(env).storage.paused == old(env).storage.paused,
            final(env).storage.pause_approvals == old(env).storage.pause_approvals,
            final(env).events@ == old(env).events@,
            final(env).auths@ == old(env).auths@,
            final(env).ledger_sequence == old(env).ledger_sequence,
    {
        if let Some(guardians) = storage::get_guardians(env) {
            let ghost a0 = env.storage.unpause_approvals@;
            let ghost e0 = *env;
            let mut i: usize = 0;
            while i < guardians.len()
                invariant
                    i <= guardians@.len(),
                    guardians@ == e0.storage.guardians->Some_0@,
                    e0.storage.inv(),
                    a0 == e0.storage.unpause_approvals@,
                    env.storage.unpause_approvals.wf(),
                    forall|k: (Seq<char>, Seq<char>)| #[trigger]
                        env.storage.unpause_approvals@.contains_key(k) <==> a0.contains_key(k) && !(
                        k.0 == scope@ && views(guardians@.take(i as int)).contains(k.1)),
                    env.storage.guardians == e0.storage.guardians,
                    env.storage.threshold == e0.storage.threshold,
                    env.storage.paused == e0.storage.paused,
                    env.storage.pause_approvals == e0.storage.pause_approvals,
                    env.events@ == e0.events@,
                    env.auths@ == e0.auths@,
                    env.ledger_sequence == e0.ledger_sequence,
                decreases guardians@.len() - i,
            {
                storage::remove_unpause_approval(env, scope, &guardians[i]);
                proof {
                    assert(views(guardians@.take(i + 1)) =~= views(guardians@.take(i as int)).push(
                        guardians@[i as int]@,
                    ));
                    assert forall|k: (Seq<char>, Seq<char>)| #[trigger]
                        env.storage.unpause_approvals@.contains_key(k) <==> a0.contains_key(k) && !(
                        k.0 == scope@ && views(guardians@.take(i + 1)).contains(k.1)) by {
                        let v0 = views(guardians@.take(i as int));
                        let v1 = views(guardians@.take(i + 1));
                        if v1.contains(k.1) && k.1 != guardians@[i as int]@ {
                            let j = choose|j: int| 0 <= j < v1.len() && v1[j] == k.1;
                            assert(v0[j] == k.1);
                        }
                        if v0.contains(k.1) {
                            let j = choose|j: int| 0 <= j < v0.len() && v0[j] == k.1;
                            assert(v1[j] == k.1);
                        }
                        assert(v1[i as int] == guardians@[i as int]@);
                    }
                }
                i = i + 1;
            }
            assert(guardians@.take(guardians@.len() as int) =~= guardians@);
            assert(env.storage.unpause_approvals@ =~= a0.remove_keys(scope_keys(guardians@, scope@)));
        }
    }
}

} // verus!
