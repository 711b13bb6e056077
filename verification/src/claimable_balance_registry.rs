pub mod errors;
pub mod events;
pub mod storage;

use vstd::prelude::*;

use crate::primitives::Address;
pub use errors::Error;
pub use events::{BalanceClaimed, BalanceRecorded, Event, Initialized};
pub use storage::{balance, Storage};

verus! {

/// The ledger environment of a claimable balance registry.
pub type Env = crate::env::Env<Storage, Event>;

/// An additive registry of the balances that expired ephemeral accounts
/// left for their recovery addresses.
pub struct ClaimableBalanceRegistry;

/// Records for the same `(recovery_address, asset)` accumulate: two
/// successful records of `x` and then `y` leave the balance grown by `x + y`.
pub proof fn lemma_records_accumulate(
    s0: Storage,
    s1: Storage,
    s2: Storage,
    recovery: Seq<char>,
    asset: Seq<char>,
    x: i128,
    y: i128,
)
    requires
        s1.balances@ == s0.balances@.insert(
            (recovery, asset),
            (balance(&s0, recovery, asset) + x) as i128,
        ),
        s2.balances@ == s1.balances@.insert(
            (recovery, asset),
            (balance(&s1, recovery, asset) + y) as i128,
        ),
        balance(&s0, recovery, asset) + x + y <= i128::MAX,
        0 <= balance(&s0, recovery, asset),
        x > 0,
        y > 0,
    ensures
        balance(&s2, recovery, asset) == balance(&s0, recovery, asset) + x + y,
{
}

/// A successful claim empties the balance, so claiming again without a
/// record in between is refused with `NothingToClaim`.
pub proof fn lemma_claim_empties_balance(
    pre: Storage,
    post: Storage,
    recovery: Seq<char>,
    asset: Seq<char>,
)
    requires
        post.balances@ == pre.balances@.insert((recovery, asset), 0),
    ensures
        balance(&post, recovery, asset) == 0,
{
}

impl ClaimableBalanceRegistry {
    /// Sets the admin (who may change the writer) and the writer (who may
    /// record balances). Can only be called once.
    pub fn initialize(env: &mut Env, admin: Address, writer: Address) -> (r: Result<(), Error>)
        requires
            old(env).storage.inv(),
        ensures
            final(env).storage.inv(),
            old(env).storage.admin is Some <==> r == Err::<(), Error>(Error::AlreadyInitialized),
            r is Ok <==> old(env).storage.admin is None,
            r is Err ==> *final(env) == *old(env),
            r is Ok ==> {
                &&& final(env).storage.admin == Some(admin)
                &&& final(env).storage.writer == Some(writer)
                &&& final(env).storage.balances == old(env).storage.balances
                &&& final(env).auths@ == old(env).auths@.push(admin)
                &&& final(env).events@ == old(env).events@.push(
                    Event::Initialized(Initialized { admin, writer }),
                )
                &&& final(env).ledger_sequence == old(env).ledger_sequence
            },
    {
        if storage::has_admin(env) {
            return Err(Error::AlreadyInitialized);
        }
        env.require_auth(&admin);
        storage::set_admin(env, &admin);
        storage::set_writer(env, &writer);
        events::emit_initialized(env, admin, writer);
        Ok(())
    }

    /// Replaces the writer. Only the admin may call this.
    pub fn set_writer(env: &mut Env, admin: Address, new_writer: Address) -> (r: Result<
        (),
        Error,
    >)
        requires
            old(env).storage.inv(),
        ensures
            final(env).storage.inv(),
            old(env).storage.admin is None ==> r == Err::<(), Error>(Error::NotInitialized),
            old(env).storage.admin matches Some(a) && a@ != admin@ ==> r == Err::<(), Error>(
                Error::Unauthorized,
            ),
            r is Ok <==> (old(env).storage.admin matches Some(a) && a@ == admin@),
            r is Err ==> *final(env) == *old(env),
            r is Ok ==> {
                &&& final(env).storage.writer == Some(new_writer)
                &&& final(env).storage.admin == old(env).storage.admin
                &&& final(env).storage.balances == old(env).storage.balances
                &&& final(env).auths@ == old(env).auths@.push(admin)
                &&& final(env).events@ == old(env).events@
                &&& final(env).ledger_sequence == old(env).ledger_sequence
            },
    {
        let stored_admin = match storage::get_admin(env) {
            Some(a) => a,
            None => return Err(Error::NotInitialized),
        };
        if !admin.same_as(&stored_admin) {
            return Err(Error::Unauthorized);
        }
        env.require_auth(&admin);
        storage::set_writer(env, &new_writer);
        Ok(())
    }

    /// Adds `amount` to the claimable balance of `(recovery_address, asset)`.
    /// Only the writer may call this, and the amount must be positive; the
    /// writer's authorization is demanded before the amount is checked.
    pub fn record(
        env: &mut Env,
        writer: Address,
        recovery_address: Address,
        asset: Address,
        amount: i128,
    ) -> (r: Result<(), Error>)
        requires
            old(env).storage.inv(),
            old(env).storage.writer matches Some(w) && w@ == writer@ && amount > 0 ==> balance(
                &old(env).storage,
                recovery_address@,
                asset@,
            ) + amount <= i128::MAX,
        ensures
            final(env).storage.inv(),
            old(env).storage.writer is None ==> r == Err::<(), Error>(Error::NotInitialized),
            old(env).storage.writer matches Some(w) && w@ != writer@ ==> r == Err::<(), Error>(
                Error::Unauthorized,
            ),
            old(env).storage.writer matches Some(w) && w@ == writer@ && amount <= 0 ==> r
                == Err::<(), Error>(Error::InvalidAmount),
            r is Ok <==> (old(env).storage.writer matches Some(w) && w@ == writer@ && amount > 0),
            r is Err && r != Err::<(), Error>(Error::InvalidAmount) ==> *final(env) == *old(env),
            r == Err::<(), Error>(Error::InvalidAmount) ==> final(env).demands_auth(
                *old(env),
                writer,
            ),
            r is Ok ==> {
                let new_total = (balance(&old(env).storage, recovery_address@, asset@)
                    + amount) as i128;
                &&& final(env).storage.balances@ == old(env).storage.balances@.insert(
                    (recovery_address@, asset@),
                    new_total,
                )
                &&& final(env).storage.admin == old(env).storage.admin
                &&& final(env).storage.writer == old(env).storage.writer
                &&& final(env).auths@ == old(env).auths@.push(writer)
                &&& final(env).events@ == old(env).events@.push(
                    Event::Recorded(
                        BalanceRecorded { recovery_address, asset, amount, new_total },
                    ),
                )
                &&& final(env).ledger_sequence == old(env).ledger_sequence
            },
    {
        let stored_writer = match storage::get_writer(env) {
            Some(w) => w,
            None => return Err(Error::NotInitialized),
        };
        if !writer.same_as(&stored_writer) {
            return Err(Error::Unauthorized);
        }
        env.require_auth(&writer);
        if amount <= 0 {
            return Err(Error::InvalidAmount);
        }
        let current = storage::get_balance(env, &recovery_address, &asset);
        let new_total = current + amount;
        storage::set_balance(env, &recovery_address, &asset, new_total);
        events::emit_recorded(env, recovery_address, asset, amount, new_total);
        Ok(())
    }

    /// Claims the balance of `(recovery_address, asset)`: returns it and sets
    /// it to zero. Fails when the balance is zero. The recovery address's
    /// authorization is demanded first, also when the claim is then refused.
    pub fn claim(env: &mut Env, recovery_address: Address, asset: Address) -> (r: Result<
        i128,
        Error,
    >)
        requires
            old(env).storage.inv(),
        ensures
            final(env).storage.inv(),
            balance(&old(env).storage, recovery_address@, asset@) == 0 <==> r == Err::<
                i128,
                Error,
            >(Error::NothingToClaim),
            r is Ok <==> balance(&old(env).storage, recovery_address@, asset@) != 0,
            r is Err ==> final(env).demands_auth(*old(env), recovery_address),
            r is Ok ==> {
                let amount = balance(&old(env).storage, recovery_address@, asset@);
                &&& r == Ok::<i128, Error>(amount)
                &&& amount > 0
                &&& final(env).storage.balances@ == old(env).storage.balances@.insert(
                    (recovery_address@, asset@),
                    0,
                )
                &&& final(env).storage.admin == old(env).storage.admin
                &&& final(env).storage.writer == old(env).storage.writer
                &&& final(env).auths@ == old(env).auths@.push(recovery_address)
                &&& final(env).events@ == old(env).events@.push(
                    Event::Claimed(BalanceClaimed { recovery_address, asset, amount }),
                )
                &&& final(env).ledger_sequence == old(env).ledger_sequence
            },
    {
        env.require_auth(&recovery_address);
        let amount = storage::get_balance(env, &recovery_address, &asset);
        if amount == 0 {
            return Err(Error::NothingToClaim);
        }
        storage::set_balance(env, &recovery_address, &asset, 0);
        events::emit_claimed(env, recovery_address, asset, amount);
        Ok(amount)
    }

    /// The recorded claimable balance of `(recovery_address, asset)`; 0 if
    /// nothing was recorded.
    pub fn balance_of(env: &Env, recovery_address: Address, asset: Address) -> (r: i128)
        requires
            env.storage.inv(),
        ensures
            r == balance(&env.storage, recovery_address@, asset@),
    {
        storage::get_balance(env, &recovery_address, &asset)
    }
}

} // verus!
