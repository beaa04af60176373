use vstd::prelude::*;
use crate::key::Key;
use crate::lifecycle::{
    complete_unstake_error, cooling, lock_error, opened, relocked, restake_error, stake_error,
    start_unstake_error, unlock_fits, withdrawn,
};
use crate::state::{sat_add, sat_sub, unlock_at, ErrorCode, PoolState, StakeAccount, Status};

verus! {

/// A stake that is opened, put into cooldown and completed, each step
/// succeeding with its transfer accepted, lowers the pool's total from what it
/// was right after the stake by exactly the staked amount, back to what it was
/// before. The record ends withdrawn, and from then on `start_unstake`,
/// `restake` and `complete_unstake` refuse it whoever calls, whenever.
/// (The total is taken to stay within `u64` when the stake is added.)
pub proof fn lemma_stake_then_unstake(
    pool: PoolState,
    user: Key,
    amount: u64,
    lock_days: u64,
    t0: i64,
    bump: u8,
    t1: i64,
    t2: i64,
)
    requires
        stake_error(amount, lock_days) is None,
        unlock_fits(t0, lock_days),
        pool.total_staked + amount <= u64::MAX,
        start_unstake_error(opened(user, amount, lock_days, t0, bump), user, t1) is None,
        complete_unstake_error(cooling(opened(user, amount, lock_days, t0, bump), t1), user, t2)
            is None,
    ensures
        ({
            let staked = sat_add(pool.total_staked, amount);
            let s = cooling(opened(user, amount, lock_days, t0, bump), t1);
            &&& sat_sub(staked, s.amount) == pool.total_staked
            &&& sat_sub(staked, s.amount) == staked - amount
            &&& sat_sub(staked, s.amount) < staked
        }),
        withdrawn(cooling(opened(user, amount, lock_days, t0, bump), t1)).status() is Withdrawn,
        forall|caller: Key, now: i64|
            start_unstake_error(
                withdrawn(cooling(opened(user, amount, lock_days, t0, bump), t1)),
                caller,
                now,
            ) is Some,
        forall|caller: Key, now: i64|
            complete_unstake_error(
                withdrawn(cooling(opened(user, amount, lock_days, t0, bump), t1)),
                caller,
                now,
            ) is Some,
        forall|caller: Key, days: u64, now: i64|
            restake_error(
                withdrawn(cooling(opened(user, amount, lock_days, t0, bump), t1)),
                caller,
                days,
                now,
            ) is Some,
{
}

/// A stake that is opened and then relocked twice, each time once its lock
/// has ended, is accepted both times; each relock clears the cooldown and
/// keeps the amount, and `restake` takes no pool, so the pool's total is the
/// one the stake left.
pub proof fn lemma_restake_twice(
    user: Key,
    amount: u64,
    lock_days: u64,
    t0: i64,
    bump: u8,
    d1: u64,
    t1: i64,
    d2: u64,
    t2: i64,
)
    requires
        stake_error(amount, lock_days) is None,
        unlock_fits(t0, lock_days),
        t1 >= unlock_at(t0 as int, lock_days as nat),
        lock_error(d1) is None,
        unlock_fits(t1, d1),
        t2 >= unlock_at(t1 as int, d1 as nat),
        lock_error(d2) is None,
        unlock_fits(t2, d2),
    ensures
        restake_error(opened(user, amount, lock_days, t0, bump), user, d1, t1) is None,
        restake_error(relocked(opened(user, amount, lock_days, t0, bump), d1, t1), user, d2, t2)
            is None,
        relocked(opened(user, amount, lock_days, t0, bump), d1, t1).cooldown_start == 0,
        relocked(relocked(opened(user, amount, lock_days, t0, bump), d1, t1), d2, t2).cooldown_start
            == 0,
        relocked(relocked(opened(user, amount, lock_days, t0, bump), d1, t1), d2, t2).amount
            == amount,
        relocked(relocked(opened(user, amount, lock_days, t0, bump), d1, t1), d2, t2).wf(),
{
}

/// Once a cooldown has begun at a nonzero time, beginning it again at that
/// time or later is refused with `CooldownAlreadyStarted`.
pub proof fn lemma_start_unstake_twice(s: StakeAccount, user: Key, t1: i64, t2: i64)
    requires
        start_unstake_error(s, user, t1) is None,
        t1 != 0,
        t2 >= t1,
    ensures
        start_unstake_error(cooling(s, t1), user, t2) == Some(ErrorCode::CooldownAlreadyStarted),
{
}

/// What a record adds to the pool's total: its amount while it is held.
pub open spec fn contribution(s: StakeAccount) -> int {
    if s.is_active { s.amount as int } else { 0 }
}

/// The sum of the amounts of the records that are still held.
pub open spec fn held(stakes: Seq<StakeAccount>) -> int
    decreases stakes.len(),
{
    if stakes.len() == 0 {
        0
    } else {
        held(stakes.drop_last()) + contribution(stakes.last())
    }
}

/// The pool's total is the sum of the stakes it holds.
pub open spec fn accounted(pool: PoolState, stakes: Seq<StakeAccount>) -> bool {
    pool.total_staked == held(stakes)
}

proof fn lemma_held_nonneg(stakes: Seq<StakeAccount>)
    ensures
        held(stakes) >= 0,
    decreases stakes.len(),
{
    if stakes.len() > 0 {
        lemma_held_nonneg(stakes.drop_last());
    }
}

proof fn lemma_held_update(stakes: Seq<StakeAccount>, i: int, x: StakeAccount)
    requires
        0 <= i < stakes.len(),
    ensures
        held(stakes.update(i, x)) == held(stakes) - contribution(stakes[i]) + contribution(x),
        held(stakes) >= contribution(stakes[i]),
    decreases stakes.len(),
{
    let u = stakes.update(i, x);
    lemma_held_nonneg(stakes.drop_last());
    if i == stakes.len() - 1 {
        assert(u.drop_last() =~= stakes.drop_last());
    } else {
        lemma_held_update(stakes.drop_last(), i, x);
        assert(u.drop_last() =~= stakes.drop_last().update(i, x));
    }
}

/// Opening a stake keeps the pool's total equal to the sum of the stakes it
/// holds, the new one included (as long as that sum fits in a `u64`).
pub proof fn lemma_stake_keeps_accounts(
    pool: PoolState,
    stakes: Seq<StakeAccount>,
    user: Key,
    amount: u64,
    lock_days: u64,
    now: i64,
    bump: u8,
)
    requires
        accounted(pool, stakes),
        stake_error(amount, lock_days) is None,
        held(stakes) + amount <= u64::MAX,
    ensures
        accounted(
            PoolState { total_staked: sat_add(pool.total_staked, amount), ..pool },
            stakes.push(opened(user, amount, lock_days, now, bump)),
        ),
{
    assert(stakes.push(opened(user, amount, lock_days, now, bump)).drop_last() =~= stakes);
}

/// Completing the unstaking of one of the pool's stakes keeps the pool's
/// total equal to the sum of the stakes it still holds.
pub proof fn lemma_complete_unstake_keeps_accounts(
    pool: PoolState,
    stakes: Seq<StakeAccount>,
    i: int,
    caller: Key,
    now: i64,
)
    requires
        accounted(pool, stakes),
        0 <= i < stakes.len(),
        complete_unstake_error(stakes[i], caller, now) is None,
    ensures
        accounted(
            PoolState { total_staked: sat_sub(pool.total_staked, stakes[i].amount), ..pool },
            stakes.update(i, withdrawn(stakes[i])),
        ),
{
    lemma_held_update(stakes, i, withdrawn(stakes[i]));
}

/// Beginning a cooldown or relocking changes no amount and ends no stake, so
/// the pool's total stays the sum of the stakes it holds.
pub proof fn lemma_cooldown_and_relock_keep_accounts(
    pool: PoolState,
    stakes: Seq<StakeAccount>,
    i: int,
    lock_days: u64,
    now: i64,
)
    requires
        accounted(pool, stakes),
        0 <= i < stakes.len(),
    ensures
        accounted(pool, stakes.update(i, cooling(stakes[i], now))),
        accounted(pool, stakes.update(i, relocked(stakes[i], lock_days, now))),
{
    lemma_held_update(stakes, i, cooling(stakes[i], now));
    lemma_held_update(stakes, i, relocked(stakes[i], lock_days, now));
}

} // verus!
