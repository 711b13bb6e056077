use vstd::prelude::*;

use super::Env;
use crate::address_list::{copy_list, views};
use crate::primitives::{Address, Symbol};
use crate::store::Store;

verus! {

/// The pause guardian's storage: the guardians and the threshold (instance
/// entries), each scope's paused flag, and the pending pause and unpause
/// approvals of each `(scope, guardian)`.
pub struct Storage {
    pub guardians: Option<Vec<Address>>,
    pub threshold: Option<u32>,
    pub paused: Store<Symbol, bool>,
    pub pause_approvals: Store<(Symbol, Address), ()>,
    pub unpause_approvals: Store<(Symbol, Address), ()>,
}

/// Whether `scope` is paused.
pub open spec fn paused_flag(s: &Storage, scope: Seq<char>) -> bool {
    s.paused@.contains_key(scope) && s.paused@[scope]
}

/// Whether `guardian` is one of the guardians.
pub open spec fn guardian_listed(s: &Storage, guardian: Seq<char>) -> bool {
    s.guardians matches Some(g) && views(g@).contains(guardian)
}

impl Storage {
    /// The storage invariant: guardians and threshold are set together,
    /// with at least one guardian, a threshold between 1 and the number of
    /// guardians, and no more guardians than a ledger vector holds; before
    /// initialization no scope has a flag or an approval; and every pending
    /// approval is a guardian's.
    pub open spec fn inv(&self) -> bool {
        &&& self.paused.wf()
        &&& self.pause_approvals.wf()
        &&& self.unpause_approvals.wf()
        &&& (self.guardians is Some <==> self.threshold is Some)
        &&& (self.guardians matches Some(g) ==> 0 < g@.len() <= u32::MAX && (self.threshold matches Some(t)
            && 1 <= t <= g@.len()))
        &&& (self.guardians is None ==> self.paused@.dom() == Set::<Seq<char>>::empty())
        &&& forall|k: (Seq<char>, Seq<char>)| #[trigger]
            self.pause_approvals@.contains_key(k) ==> guardian_listed(self, k.1)
        &&& forall|k: (Seq<char>, Seq<char>)| #[trigger]
            self.unpause_approvals@.contains_key(k) ==> guardian_listed(self, k.1)
    }

    /// Empty storage, as before `initialize`.
    pub fn new() -> (r: Storage)
        ensures
            r.inv(),
            r.guardians is None,
            r.threshold is None,
            r.paused@ == Map::<Seq<char>, bool>::empty(),
            r.pause_approvals@ == Map::<(Seq<char>, Seq<char>), ()>::empty(),
            r.unpause_approvals@ == Map::<(Seq<char>, Seq<char>), ()>::empty(),
    {
        let r = Storage {
            guardians: None,
            threshold: None,
            paused: Store::new(),
            pause_approvals: Store::new(),
            unpause_approvals: Store::new(),
        };
        assert(r.paused@.dom() =~= Set::<Seq<char>>::empty());
        r
    }
}

pub fn get_guardians(env: &Env) -> (r: Option<Vec<Address>>)
    ensures
        r is Some <==> env.storage.guardians is Some,
        r matches Some(v) ==> v@ == env.storage.guardians->Some_0@,
{
    match &env.storage.guardians {
        Some(g) => Some(copy_list(g)),
        None => None,
    }
}

pub fn set_guardians(env: &mut Env, guardians: &Vec<Address>)
    ensures
        final(env).storage.guardians matches Some(g) && g@ == guardians@,
        final(env).storage.threshold == old(env).storage.threshold,
        final(env).storage.paused == old(env).storage.paused,
        final(env).storage.pause_approvals == old(env).storage.pause_approvals,
        final(env).storage.unpause_approvals == old(env).storage.unpause_approvals,
        final(env).events@ == old(env).events@,
        final(env).auths@ == old(env).auths@,
        final(env).ledger_sequence == old(env).ledger_sequence,
{
    env.storage.guardians = Some(copy_list(guardians));
}

pub fn get_threshold(env: &Env) -> (r: Option<u32>)
    ensures
        r == env.storage.threshold,
{
    env.storage.threshold
}

pub fn set_threshold(env: &mut Env, threshold: u32)
    ensures
        final(env).storage.threshold == Some(threshold),
        final(env).storage.guardians == old(env).storage.guardians,
        final(env).storage.paused == old(env).storage.paused,
        final(env).storage.pause_approvals == old(env).storage.pause_approvals,
        final(env).storage.unpause_approvals == old(env).storage.unpause_approvals,
        final(env).events@ == old(env).events@,
        final(env).auths@ == old(env).auths@,
        final(env).ledger_sequence == old(env).ledger_sequence,
{
    env.storage.threshold = Some(threshold);
}

/// Whether `scope` is paused (false if never set).
pub fn is_paused(env: &Env, scope: &Symbol) -> (r: bool)
    requires
        env.storage.paused.wf(),
    ensures
        r == paused_flag(&env.storage, scope@),
{
    match env.storage.paused.get(scope) {
        Some(p) => *p,
        None => false,
    }
}

pub fn set_paused(env: &mut Env, scope: &Symbol, paused: bool)
    requires
        old(env).storage.paused.wf(),
    ensures
        final(env).storage.paused.wf(),
        final(env).storage.paused@ == old(env).storage.paused@.insert(scope@, paused),
        final(env).storage.guardians == old(env).storage.guardians,
        final(env).storage.threshold == old(env).storage.threshold,
        final(env).storage.pause_approvals == old(env).storage.pause_approvals,
        final(env).storage.unpause_approvals == old(env).storage.unpause_approvals,
        final(env).events@ == old(env).events@,
        final(env).auths@ == old(env).auths@,
        final(env).ledger_sequence == old(env).ledger_sequence,
{
    env.storage.paused.insert(scope.clone(), paused);
}

pub fn has_pause_approval(env: &Env, scope: &Symbol, guardian: &Address) -> (r: bool)
    requires
        env.storage.pause_approvals.wf(),
    ensures
        r == env.storage.pause_approvals@.contains_key((scope@, guardian@)),
{
    env.storage.pause_approvals.contains_key(&(scope.clone(), guardian.clone()))
}

pub fn set_pause_approval(env: &mut Env, scope: &Symbol, guardian: &Address)
    requires
        old(env).storage.pause_approvals.wf(),
    ensures
        final(env).storage.pause_approvals.wf(),
        final(env).storage.pause_approvals@ == old(env).storage.pause_approvals@.insert(
            (scope@, guardian@),
            (),
        ),
        final(env).storage.guardians == old(env).storage.guardians,
        final(env).storage.threshold == old(env).storage.threshold,
        final(env).storage.paused == old(env).storage.paused,
        final(env).storage.unpause_approvals == old(env).storage.unpause_approvals,
        final(env).events@ == old(env).events@,
        final(env).auths@ == old(env).auths@,
        final(env).ledger_sequence == old(env).ledger_sequence,
{
    env.storage.pause_approvals.insert((scope.clone(), guardian.clone()), ());
}

pub fn remove_pause_approval(env: &mut Env, scope: &Symbol, guardian: &Address)
    requires
        old(env).storage.pause_approvals.wf(),
    ensures
        final(env).storage.pause_approvals.wf(),
        final(env).storage.pause_approvals@ == old(env).storage.pause_approvals@.remove(
            (scope@, guardian@),
        ),
        final(env).storage.guardians == old(env).storage.guardians,
        final(env).storage.threshold == old(env).storage.threshold,
        final(env).storage.paused == old(env).storage.paused,
        final(env).storage.unpause_approvals == old(env).storage.unpause_approvals,
        final(env).events@ == old(env).events@,
        final(env).auths@ == old(env).auths@,
        final(env).ledger_sequence == old(env).ledger_sequence,
{
    env.storage.pause_approvals.remove(&(scope.clone(), guardian.clone()));
}

pub fn has_unpause_approval(env: &Env, scope: &Symbol, guardian: &Address) -> (r: bool)
    requires
        env.storage.unpause_approvals.wf(),
    ensures
        r == env.storage.unpause_approvals@.contains_key((scope@, guardian@)),
{
    env.storage.unpause_approvals.contains_key(&(scope.clone(), guardian.clone()))
}

pub fn set_unpause_approval(env: &mut Env, scope: &Symbol, guardian: &Address)
    requires
        old(env).storage.unpause_approvals.wf(),
    ensures
        final(env).storage.unpause_approvals.wf(),
        final(env).storage.unpause_approvals@ == old(env).storage.unpause_approvals@.insert(
            (scope@, guardian@),
            (),
        ),
        final(env).storage.guardians == old(env).storage.guardians,
        final(env).storage.threshold == old(env).storage.threshold,
        final(env).storage.paused == old(env).storage.paused,
        final(env).storage.pause_approvals == old(env).storage.pause_approvals,
        final(env).events@ == old(env).events@,
        final(env).auths@ == old(env).auths@,
        final(env).ledger_sequence == old(env).ledger_sequence,
{
    env.storage.unpause_approvals.insert((scope.clone(), guardian.clone()), ());
}

pub fn remove_unpause_approval(env: &mut Env, scope: &Symbol, guardian: &Address)
    requires
        old(env).storage.unpause_approvals.wf(),
    ensures
        final(env).storage.unpause_approvals.wf(),
        final(env).storage.unpause_approvals@ == old(env).storage.unpause_approvals@.remove(
            (scope@, guardian@),
        ),
        final(env).storage.guardians == old(env).storage.guardians,
        final(env).storage.threshold == old(env).storage.threshold,
        final(env).storage.paused == old(env).storage.paused,
        final(env).storage.pause_approvals == old(env).storage.pause_approvals,
        final(env).events@ == old(env).events@,
        final(env).auths@ == old(env).auths@,
        final(env).ledger_sequence == old(env).ledger_sequence,
{
    env.storage.unpause_approvals.remove(&(scope.clone(), guardian.clone()));
}

} // verus!
