pub mod errors;
pub mod events;
pub mod storage;

use vstd::prelude::*;

use crate::primitives::Address;
pub use errors::Error;
pub use events::{ContractInitialized, Event, PayeesUpdated, SplitExecuted};
pub use storage::{shares_of, sum_shares, valid_payees, PayeeEntry, Storage};

verus! {

/// The ledger environment of a fee splitter.
pub type Env = crate::env::Env<Storage, Event>;

/// The whole, in basis points.
pub const TOTAL_BPS: u32 = 10_000;

/// Splits amounts of an asset across a configured list of payees by their
/// shares; each payee gets the floor of its share and the last payee also
/// gets the rounding remainder, so the whole amount is always paid out.
pub struct FeeSplitter;

/// A token transfer that `split` asks the host to make, in order.
#[derive(Clone, Debug, PartialEq, Eq)]
pub struct Transfer {
    pub asset: Address,
    pub from: Address,
    pub to: Address,
    pub amount: i128,
}

/// What `build_and_validate_payees` refuses a configuration for, if anything.
pub open spec fn payees_error(payees: Seq<Address>, shares: Seq<u32>) -> Option<Error> {
    if payees.len() == 0 {
        Some(Error::NoPayees)
    } else if payees.len() != shares.len() {
        Some(Error::LengthMismatch)
    } else if exists|i: int| 0 <= i < shares.len() && shares[i] == 0 {
        Some(Error::ZeroShare)
    } else if sum_shares(shares) != TOTAL_BPS {
        Some(Error::SharesDoNotSum)
    } else {
        None
    }
}

/// The configuration built from `payees` and `shares`, pairwise.
pub open spec fn pairs_up(entries: Seq<PayeeEntry>, payees: Seq<Address>, shares: Seq<u32>) -> bool {
    &&& entries.len() == payees.len()
    &&& forall|i: int|
        0 <= i < entries.len() ==> #[trigger] entries[i] == (PayeeEntry {
            address: payees[i],
            share_bps: shares[i],
        })
}

/// The floor of `amount`'s share `share_bps`.
pub open spec fn pro_rata(amount: int, share_bps: int) -> int {
    amount * share_bps / TOTAL_BPS as int
}

/// The total of a sequence of transfers.
pub open spec fn total_transferred(t: Seq<Transfer>) -> int
    decreases t.len(),
{
    if t.len() == 0 {
        0
    } else {
        total_transferred(t.drop_last()) + t.last().amount
    }
}

/// The transfers that splitting `amount` across `entries` makes: the floor of
/// each share to each payee but the last, which gets what remains.
pub open spec fn split_plan(
    entries: Seq<PayeeEntry>,
    asset: Address,
    from: Address,
    amount: int,
    t: Seq<Transfer>,
) -> bool {
    &&& t.len() == entries.len()
    &&& forall|i: int|
        0 <= i < t.len() ==> {
            &&& (#[trigger] t[i]).to == entries[i].address
            &&& t[i].asset == asset
            &&& t[i].from == from
        }
    &&& forall|i: int|
        0 <= i < t.len() - 1 ==> (#[trigger] t[i]).amount == pro_rata(
            amount,
            entries[i].share_bps as int,
        )
    &&& t[t.len() - 1].amount == amount - total_transferred(t.drop_last())
}

proof fn lemma_sum_shares_step(s: Seq<u32>, i: int)
    requires
        0 <= i < s.len(),
    ensures
        sum_shares(s.take(i + 1)) == sum_shares(s.take(i)) + s[i],
{
    assert(s.take(i + 1).drop_last() =~= s.take(i));
}

proof fn lemma_total_step(t: Seq<Transfer>, x: Transfer)
    ensures
        total_transferred(t.push(x)) == total_transferred(t) + x.amount,
{
    assert(t.push(x).drop_last() =~= t);
}

proof fn lemma_pro_rata_bounds(amount: int, share: int)
    requires
        amount >= 0,
        share >= 0,
    ensures
        0 <= pro_rata(amount, share),
        10_000 * pro_rata(amount, share) <= amount * share,
{
    assert(amount * share >= 0) by (nonlinear_arith)
        requires
            amount >= 0,
            share >= 0,
    ;
    assert(10_000 * ((amount * share) / 10_000) <= amount * share) by (nonlinear_arith)
        requires
            amount * share >= 0,
    ;
}

proof fn lemma_plan_prefix(
    entries: Seq<PayeeEntry>,
    asset: Address,
    from: Address,
    amount: int,
    t: Seq<Transfer>,
    k: int,
)
    requires
        valid_payees(entries),
        amount > 0,
        split_plan(entries, asset, from, amount, t),
        0 <= k <= t.len() - 1,
    ensures
        10_000 * total_transferred(t.take(k)) <= amount * sum_shares(shares_of(entries).take(k)),
        forall|i: int| 0 <= i < k ==> (#[trigger] t[i]).amount >= 0,
    decreases k,
{
    let s = shares_of(entries);
    if k == 0 {
        assert(t.take(0) =~= Seq::<Transfer>::empty());
        assert(s.take(0) =~= Seq::<u32>::empty());
    } else {
        let j = k - 1;
        lemma_plan_prefix(entries, asset, from, amount, t, j);
        lemma_pro_rata_bounds(amount, entries[j].share_bps as int);
        lemma_sum_shares_step(s, j);
        assert(t.take(k) =~= t.take(j).push(t[j]));
        lemma_total_step(t.take(j), t[j]);
        let b = sum_shares(s.take(j));
        let c = s[j] as int;
        assert(amount * (b + c) == amount * b + amount * c) by (nonlinear_arith);
    }
}

/// The whole amount is paid out, and no payee gets a negative amount.
pub proof fn lemma_split_pays_exact_amount(
    entries: Seq<PayeeEntry>,
    asset: Address,
    from: Address,
    amount: int,
    t: Seq<Transfer>,
)
    requires
        valid_payees(entries),
        amount > 0,
        split_plan(entries, asset, from, amount, t),
    ensures
        total_transferred(t) == amount,
        forall|i: int| 0 <= i < t.len() ==> (#[trigger] t[i]).amount >= 0,
{
    let n = t.len() as int;
    assert(t =~= t.drop_last().push(t[n - 1]));
    lemma_total_step(t.drop_last(), t[n - 1]);
    let s = shares_of(entries);
    lemma_plan_prefix(entries, asset, from, amount, t, n - 1);
    assert(t.take(n - 1) =~= t.drop_last());
    lemma_sum_shares_step(s, n - 1);
    assert(s.take(n as int) =~= s);
    let last = s[n - 1] as int;
    assert(last > 0);
    let b = sum_shares(s.take(n - 1));
    assert(b == 10_000 - last);
    assert(amount * b <= amount * 10_000 - amount) by (nonlinear_arith)
        requires
            amount > 0,
            b == 10_000 - last,
            last >= 1,
    ;
}

impl FeeSplitter {
    /// Checks a payee configuration and builds its entries: at least one
    /// payee, as many shares as payees, no zero share, and shares summing to
    /// 10 000.
    pub fn build_and_validate_payees(payees: &Vec<Address>, shares_bps: &Vec<u32>) -> (r: Result<
        Vec<PayeeEntry>,
        Error,
    >)
        ensures
            match payees_error(payees@, shares_bps@) {
                Some(e) => (r matches Err(x) && x == e),
                None => (r matches Ok(v) && pairs_up(v@, payees@, shares_bps@) && valid_payees(v@)),
            },
    {
        if payees.len() == 0 {
            return Err(Error::NoPayees);
        }
        if payees.len() != shares_bps.len() {
            return Err(Error::LengthMismatch);
        }
        let mut total: u32 = 0;
        let mut entries: Vec<PayeeEntry> = Vec::new();
        let mut i: usize = 0;
        while i < payees.len()
            invariant
                i <= payees@.len(),
                payees@.len() == shares_bps@.len(),
                total == (if sum_shares(shares_bps@.take(i as int)) > u32::MAX {
                    u32::MAX as int
                } else {
                    sum_shares(shares_bps@.take(i as int))
                }),
                forall|j: int| 0 <= j < i ==> shares_bps@[j] != 0,
                entries@.len() == i,
                forall|j: int|
                    0 <= j < i ==> #[trigger] entries@[j] == (PayeeEntry {
                        address: payees@[j],
                        share_bps: shares_bps@[j],
                    }),
            decreases payees@.len() - i,
        {
            let share = shares_bps[i];
            if share == 0 {
                return Err(Error::ZeroShare);
            }
            proof {
                lemma_sum_shares_step(shares_bps@, i as int);
            }
            total = total.saturating_add(share);
            entries.push(PayeeEntry { address: payees[i].clone(), share_bps: share });
            i = i + 1;
        }
        assert(shares_bps@.take(shares_bps@.len() as int) =~= shares_bps@);
        if total != TOTAL_BPS {
            return Err(Error::SharesDoNotSum);
        }
        assert(shares_of(entries@) =~= shares_bps@);
        Ok(entries)
    }

    /// Sets the admin and the payee configuration. Can only be called once.
    /// The admin's authorization is demanded before the configuration is
    /// checked.
    pub fn initialize(
        env: &mut Env,
        admin: Address,
        payees: Vec<Address>,
        shares_bps: Vec<u32>,
    ) -> (r: Result<(), Error>)
        requires
            old(env).storage.inv(),
        ensures
            final(env).storage.inv(),
            old(env).storage.admin is Some ==> r == Err::<(), Error>(Error::AlreadyInitialized),
            old(env).storage.admin is None ==> match payees_error(payees@, shares_bps@) {
                Some(e) => r == Err::<(), Error>(e),
                None => r == Ok::<(), Error>(()),
            },
            r is Err && old(env).storage.admin is Some ==> *final(env) == *old(env),
            r is Err && old(env).storage.admin is None ==> final(env).demands_auth(
                *old(env),
                admin,
            ),
            r is Ok ==> {
                &&& final(env).storage.admin == Some(admin)
                &&& pairs_up(final(env).storage.payees->Some_0@, payees@, shares_bps@)
                &&& final(env).auths@ == old(env).auths@.push(admin)
                &&& final(env).events@ == old(env).events@.push(
                    Event::Initialized(
                        ContractInitialized { admin, payee_count: payees@.len() as u32 },
                    ),
                )
                &&& final(env).ledger_sequence == old(env).ledger_sequence
            },
    {
        if storage::has_admin(env) {
            return Err(Error::AlreadyInitialized);
        }
        env.require_auth(&admin);
        let entries = Self::build_and_validate_payees(&payees, &shares_bps)?;
        let payee_count = entries.len() as u32;
        storage::set_admin(env, &admin);
        storage::set_payees(env, entries);
        events::emit_initialized(env, admin, payee_count);
        Ok(())
    }

    /// Splits `amount` of `asset` from `from` across the payees and returns
    /// the token transfers to make, in payee order. The whole amount is paid
    /// out; the last payee gets the rounding remainder.
    pub fn split(env: &mut Env, from: Address, asset: Address, amount: i128) -> (r: Result<
        Vec<Transfer>,
        Error,
    >)
        requires
            old(env).storage.inv(),
            old(env).storage.payees matches Some(p) ==> forall|i: int|
                0 <= i < p@.len() - 1 ==> amount * (#[trigger] p@[i]).share_bps <= i128::MAX,
        ensures
            final(env).storage.inv(),
            old(env).storage.admin is None ==> (r matches Err(e) && e == Error::NotInitialized),
            old(env).storage.admin is Some && amount <= 0 ==> (r matches Err(e) && e
                == Error::InvalidAmount),
            r is Ok <==> old(env).storage.admin is Some && amount > 0,
            r is Err ==> *final(env) == *old(env),
            r matches Ok(t) ==> {
                let entries = old(env).storage.payees->Some_0@;
                let n0 = old(env).events@.len();
                &&& split_plan(entries, asset, from, amount as int, t@)
                &&& total_transferred(t@) == amount
                &&& final(env).storage == old(env).storage
                &&& final(env).auths@ == old(env).auths@.push(from)
                &&& final(env).ledger_sequence == old(env).ledger_sequence
                &&& final(env).events@.len() == n0 + t@.len()
                &&& final(env).events@.take(n0 as int) == old(env).events@
                &&& forall|i: int|
                    0 <= i < t@.len() ==> #[trigger] final(env).events@[n0 + i]
                        == Event::SplitExecuted(
                        SplitExecuted {
                            asset,
                            payee: t@[i].to,
                            amount: t@[i].amount,
                            share_bps: entries[i].share_bps,
                        },
                    )
            },
    {
        if !storage::has_admin(env) {
            return Err(Error::NotInitialized);
        }
        if amount <= 0 {
            return Err(Error::InvalidAmount);
        }
        let entries = match storage::get_payees(env) {
            Some(e) => e,
            None => return Err(Error::NotInitialized),
        };
        env.require_auth(&from);
        let ghost env1 = *env;
        let ghost s = shares_of(entries@);
        let total_entries = entries.len();
        let mut distributed: i128 = 0;
        let mut transfers: Vec<Transfer> = Vec::new();
        let mut i: usize = 0;
        while i < total_entries
            invariant
                total_entries == entries@.len(),
                valid_payees(entries@),
                s == shares_of(entries@),
                entries@ == env1.storage.payees->Some_0@,
                amount > 0,
                forall|j: int|
                    0 <= j < entries@.len() - 1 ==> amount * (#[trigger] entries@[j]).share_bps
                        <= i128::MAX,
                i <= total_entries,
                transfers@.len() == i,
                distributed == total_transferred(transfers@),
                0 <= distributed,
                i < total_entries ==> 10_000 * distributed <= amount * sum_shares(s.take(i as int)),
                forall|j: int|
                    0 <= j < i ==> {
                        &&& (#[trigger] transfers@[j]).to == entries@[j].address
                        &&& transfers@[j].asset == asset
                        &&& transfers@[j].from == from
                    },
                forall|j: int|
                    0 <= j < i && j < total_entries - 1 ==> (#[trigger] transfers@[j]).amount
                        == pro_rata(amount as int, entries@[j].share_bps as int),
                i == total_entries ==> transfers@[i - 1].amount == amount - total_transferred(
                    transfers@.drop_last(),
                ),
                env.storage == env1.storage,
                env.auths@ == env1.auths@,
                env.ledger_sequence == env1.ledger_sequence,
                env.events@.len() == env1.events@.len() + i,
                env.events@.take(env1.events@.len() as int) == env1.events@,
                forall|j: int|
                    0 <= j < i ==> #[trigger] env.events@[env1.events@.len() + j]
                        == Event::SplitExecuted(
                        SplitExecuted {
                            asset,
                            payee: transfers@[j].to,
                            amount: transfers@[j].amount,
                            share_bps: entries@[j].share_bps,
                        },
                    ),
            decreases total_entries - i,
        {
            let share = entries[i].share_bps;
            let ghost before = transfers@;
            let payee_amount: i128 = if i == total_entries - 1 {
                proof {
                    assert(sum_shares(s.take(i as int)) == 10_000 - share) by {
                        lemma_sum_shares_step(s, i as int);
                        assert(s.take(i + 1) =~= s);
                    }
                    let b = sum_shares(s.take(i as int));
                    assert(amount * b <= amount * 10_000 - amount) by (nonlinear_arith)
                        requires
                            amount > 0,
                            b == 10_000 - share,
                            share >= 1,
                    ;
                }
                amount - distributed
            } else {
                proof {
                    lemma_pro_rata_bounds(amount as int, share as int);
                    lemma_sum_shares_step(s, i as int);
                    let b = sum_shares(s.take(i as int));
                    assert(amount * (b + share) == amount * b + amount * share) by (nonlinear_arith);
                    assert(b + share <= 10_000) by {
                        lemma_sum_prefix_bound(s, i as int + 1);
                    }
                    assert(amount * (b + share) <= amount * 10_000) by (nonlinear_arith)
                        requires
                            amount > 0,
                            b + share <= 10_000,
                    ;
                }
                (amount * share as i128) / TOTAL_BPS as i128
            };
            let payee = entries[i].address.clone();
            let t = Transfer { asset: asset.clone(), from: from.clone(), to: payee.clone(), amount: payee_amount };
            proof {
                lemma_total_step(before, t);
            }
            transfers.push(t);
            let ghost ev = env.events@;
            events::emit_split_executed(env, asset.clone(), payee, payee_amount, share);
            proof {
                assert(env.events@.take(env1.events@.len() as int) =~= ev.take(env1.events@.len() as int));
                assert(transfers@.drop_last() =~= before);
            }
            distributed = distributed + payee_amount;
            i = i + 1;
        }
        proof {
            lemma_split_pays_exact_amount(entries@, asset, from, amount as int, transfers@);
        }
        Ok(transfers)
    }

    /// Replaces the payee configuration. Only the admin may call this; its
    /// authorization is demanded before the configuration is checked.
    pub fn set_payees(
        env: &mut Env,
        admin: Address,
        payees: Vec<Address>,
        shares_bps: Vec<u32>,
    ) -> (r: Result<(), Error>)
        requires
            old(env).storage.inv(),
        ensures
            final(env).storage.inv(),
            old(env).storage.admin is None ==> r == Err::<(), Error>(Error::NotInitialized),
            old(env).storage.admin matches Some(a) && a@ != admin@ ==> r == Err::<(), Error>(
                Error::Unauthorized,
            ),
            old(env).storage.admin matches Some(a) && a@ == admin@ ==> match payees_error(
                payees@,
                shares_bps@,
            ) {
                Some(e) => r == Err::<(), Error>(e),
                None => r == Ok::<(), Error>(()),
            },
            r is Err && !(old(env).storage.admin matches Some(a) && a@ == admin@) ==> *final(env)
                == *old(env),
            r is Err && (old(env).storage.admin matches Some(a) && a@ == admin@)
                ==> final(env).demands_auth(*old(env), admin),
            r is Ok ==> {
                &&& final(env).storage.admin == old(env).storage.admin
                &&& pairs_up(final(env).storage.payees->Some_0@, payees@, shares_bps@)
                &&& final(env).auths@ == old(env).auths@.push(admin)
                &&& final(env).events@ == old(env).events@.push(
                    Event::PayeesUpdated(PayeesUpdated { payees, shares_bps }),
                )
                &&& final(env).ledger_sequence == old(env).ledger_sequence
            },
    {
        let stored_admin = match storage::get_admin(env) {
            Some(a) => a,
            None => return Err(Error::NotInitialized),
        };
        if !stored_admin.same_as(&admin) {
            return Err(Error::Unauthorized);
        }
        env.require_auth(&admin);
        let entries = Self::build_and_validate_payees(&payees, &shares_bps)?;
        storage::set_payees(env, entries);
        events::emit_payees_updated(env, payees, shares_bps);
        Ok(())
    }

    /// The payee configuration as `(address, share_bps)` pairs; empty before
    /// initialization.
    pub fn get_payees(env: &Env) -> (r: Vec<(Address, u32)>)
        requires
            env.storage.inv(),
        ensures
            env.storage.payees is None ==> r@.len() == 0,
            env.storage.payees matches Some(p) ==> {
                &&& r@.len() == p@.len()
                &&& forall|i: int|
                    0 <= i < r@.len() ==> #[trigger] r@[i] == (p@[i].address, p@[i].share_bps)
            },
    {
        let mut result: Vec<(Address, u32)> = Vec::new();
        if let Some(entries) = storage::get_payees(env) {
            let mut i: usize = 0;
            while i < entries.len()
                invariant
                    i <= entries@.len(),
                    entries@ == env.storage.payees->Some_0@,
                    result@.len() == i,
                    forall|j: int|
                        0 <= j < i ==> #[trigger] result@[j] == (
                            entries@[j].address,
                            entries@[j].share_bps,
                        ),
                decreases entries@.len() - i,
            {
                result.push((entries[i].address.clone(), entries[i].share_bps));
                i = i + 1;
            }
        }
        result
    }
}

/// A prefix of positive shares sums to no more than the whole.
proof fn lemma_sum_prefix_bound(s: Seq<u32>, k: int)
    requires
        0 <= k <= s.len(),
    ensures
        sum_shares(s.take(k)) <= sum_shares(s),
    decreases s.len() - k,
{
    if k < s.len() {
        lemma_sum_prefix_bound(s, k + 1);
        lemma_sum_shares_step(s, k);
    } else {
        assert(s.take(k) =~= s);
    }
}

} // verus!
