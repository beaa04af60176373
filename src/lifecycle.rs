use vstd::prelude::*;
use crate::key::Key;
use crate::state::{
    sat_add, sat_sub, unlock_at, valid_lock_days, ErrorCode, LedgerError, PoolState, StakeAccount,
    COOLDOWN_SECS, DAY_SECS, LOCK_STEP, MIN_LOCK, MIN_STAKE,
};

verus! {

/// Why `amount` and `lock_days` cannot open a stake, checked in this order.
pub open spec fn stake_error(amount: u64, lock_days: u64) -> Option<ErrorCode> {
    if amount < MIN_STAKE {
        Some(ErrorCode::MinStakeViolation)
    } else {
        lock_error(lock_days)
    }
}

/// Why `lock_days` is no valid lock duration.
pub open spec fn lock_error(lock_days: u64) -> Option<ErrorCode> {
    if lock_days < MIN_LOCK {
        Some(ErrorCode::MinLockViolation)
    } else if (lock_days - MIN_LOCK) % (LOCK_STEP as int) != 0 {
        Some(ErrorCode::InvalidLockStep)
    } else {
        None
    }
}

/// The lock ends within the range of a timestamp.
pub open spec fn unlock_fits(now: i64, lock_days: u64) -> bool {
    unlock_at(now as int, lock_days as nat) <= i64::MAX
}

/// The record that a stake of `amount` for `lock_days` days opened at `now` creates.
pub open spec fn opened(user: Key, amount: u64, lock_days: u64, now: i64, bump: u8) -> StakeAccount {
    StakeAccount {
        user,
        amount,
        start_time: now,
        unlock_time: unlock_at(now as int, lock_days as nat) as i64,
        lock_days,
        is_active: true,
        cooldown_start: 0,
        bump,
    }
}

/// Why `caller` cannot begin the cooldown of `s` at `now`, checked in this order.
pub open spec fn start_unstake_error(s: StakeAccount, caller: Key, now: i64) -> Option<ErrorCode> {
    if caller@ != s.user@ {
        Some(ErrorCode::Unauthorized)
    } else if !s.is_active {
        Some(ErrorCode::NotActive)
    } else if now < s.unlock_time {
        Some(ErrorCode::StillLocked)
    } else if s.cooldown_start != 0 {
        Some(ErrorCode::CooldownAlreadyStarted)
    } else {
        None
    }
}

/// `s` with its cooldown begun at `now`.
pub open spec fn cooling(s: StakeAccount, now: i64) -> StakeAccount {
    StakeAccount { cooldown_start: now, ..s }
}

/// The cooldown of `s` has run its full length by `now`.
pub open spec fn cooldown_elapsed(s: StakeAccount, now: i64) -> bool {
    now >= s.cooldown_start + COOLDOWN_SECS
}

/// Why `caller` cannot take the funds of `s` back at `now`, checked in this order.
pub open spec fn complete_unstake_error(s: StakeAccount, caller: Key, now: i64) -> Option<ErrorCode> {
    if caller@ != s.user@ {
        Some(ErrorCode::Unauthorized)
    } else if !s.is_active {
        Some(ErrorCode::NotActive)
    } else if s.cooldown_start <= 0 {
        Some(ErrorCode::NoCooldownStarted)
    } else if !cooldown_elapsed(s, now) {
        Some(ErrorCode::CooldownNotElapsed)
    } else {
        None
    }
}

/// `s` once its funds have gone back to its owner.
pub open spec fn withdrawn(s: StakeAccount) -> StakeAccount {
    StakeAccount { is_active: false, ..s }
}

/// Why `caller` cannot relock `s` at `now` for `lock_days` days, checked in this order.
pub open spec fn restake_error(s: StakeAccount, caller: Key, lock_days: u64, now: i64) -> Option<ErrorCode> {
    if caller@ != s.user@ {
        Some(ErrorCode::Unauthorized)
    } else if lock_error(lock_days) is Some {
        lock_error(lock_days)
    } else if !s.is_active {
        Some(ErrorCode::NotActive)
    } else if now < s.unlock_time {
        Some(ErrorCode::StillLocked)
    } else {
        None
    }
}

/// `s` relocked at `now` for `lock_days` days.
pub open spec fn relocked(s: StakeAccount, lock_days: u64, now: i64) -> StakeAccount {
    StakeAccount {
        start_time: now,
        unlock_time: unlock_at(now as int, lock_days as nat) as i64,
        lock_days,
        cooldown_start: 0,
        ..s
    }
}

/// An optional rejection as the result of a check.
pub open spec fn as_result(e: Option<ErrorCode>) -> Result<(), ErrorCode> {
    match e {
        Some(code) => Err(code),
        None => Ok(()),
    }
}

/// Checks a lock duration: at least the minimum, and a whole number of steps above it.
pub fn check_lock_days(lock_days: u64) -> (r: Result<(), ErrorCode>)
    ensures
        r == as_result(lock_error(lock_days)),
        r is Ok <==> valid_lock_days(lock_days as nat),
{
    if lock_days < MIN_LOCK {
        return Err(ErrorCode::MinLockViolation);
    }
    if (lock_days - MIN_LOCK) % LOCK_STEP != 0 {
        return Err(ErrorCode::InvalidLockStep);
    }
    Ok(())
}

/// Checks the parameters of a new stake, before any funds move.
pub fn check_stake(amount: u64, lock_days: u64) -> (r: Result<(), ErrorCode>)
    ensures
        r == as_result(stake_error(amount, lock_days)),
{
    if amount < MIN_STAKE {
        return Err(ErrorCode::MinStakeViolation);
    }
    check_lock_days(lock_days)
}

/// Checks that `caller` may begin the cooldown of `s` at `now`.
pub fn check_start_unstake(s: &StakeAccount, caller: &Key, now: i64) -> (r: Result<(), ErrorCode>)
    ensures
        r == as_result(start_unstake_error(*s, *caller, now)),
{
    if !caller.same(&s.user) {
        return Err(ErrorCode::Unauthorized);
    }
    if !s.is_active {
        return Err(ErrorCode::NotActive);
    }
    if now < s.unlock_time {
        return Err(ErrorCode::StillLocked);
    }
    if s.cooldown_start != 0 {
        return Err(ErrorCode::CooldownAlreadyStarted);
    }
    Ok(())
}

/// Checks that `caller` may take the funds of `s` back at `now`, before any funds move.
pub fn check_complete_unstake(s: &StakeAccount, caller: &Key, now: i64) -> (r: Result<(), ErrorCode>)
    ensures
        r == as_result(complete_unstake_error(*s, *caller, now)),
{
    if !caller.same(&s.user) {
        return Err(ErrorCode::Unauthorized);
    }
    if !s.is_active {
        return Err(ErrorCode::NotActive);
    }
    if s.cooldown_start <= 0 {
        return Err(ErrorCode::NoCooldownStarted);
    }
    // cooldown_start is positive, so the subtraction cannot overflow; a start
    // too close to the largest timestamp has a cooldown that never ends.
    if s.cooldown_start > i64::MAX - COOLDOWN_SECS || now < s.cooldown_start + COOLDOWN_SECS {
        return Err(ErrorCode::CooldownNotElapsed);
    }
    Ok(())
}

/// Checks that `caller` may relock `s` at `now` for `lock_days` days.
pub fn check_restake(s: &StakeAccount, caller: &Key, lock_days: u64, now: i64) -> (r: Result<(), ErrorCode>)
    ensures
        r == as_result(restake_error(*s, *caller, lock_days, now)),
{
    if !caller.same(&s.user) {
        return Err(ErrorCode::Unauthorized);
    }
    check_lock_days(lock_days)?;
    if !s.is_active {
        return Err(ErrorCode::NotActive);
    }
    if now < s.unlock_time {
        return Err(ErrorCode::StillLocked);
    }
    Ok(())
}
/// The end of a lock of `lock_days` days from `now`.
fn lock_end(now: i64, lock_days: u64) -> (r: i64)
    requires
        unlock_fits(now, lock_days),
    ensures
        r == unlock_at(now as int, lock_days as nat),
{
    let end: i128 = now as i128 + (lock_days as i128) * (DAY_SECS as i128);
    end as i64
}

/// Opens a stake of `amount` for `lock_days` days at `now`.
///
/// `funded` is the ledger's answer to the transfer of `amount` from the
/// user's account into the pool's custody account, made once `check_stake`
/// has passed. A rejected transfer aborts the whole operation: no record is
/// created and the pool is left as it was. On success the pool's total grows
/// by `amount`, capped at the largest `u64`.
pub fn stake(
    pool: &mut PoolState,
    user: &Key,
    amount: u64,
    lock_days: u64,
    now: i64,
    bump: u8,
    funded: Result<(), LedgerError>,
) -> (r: Result<StakeAccount, ErrorCode>)
    requires
        stake_error(amount, lock_days) is None ==> unlock_fits(now, lock_days),
    ensures
        r is Ok <==> stake_error(amount, lock_days) is None && funded is Ok,
        stake_error(amount, lock_days) matches Some(e) ==> r == Err::<StakeAccount, ErrorCode>(e),
        stake_error(amount, lock_days) is None && funded is Err ==> r
            == Err::<StakeAccount, ErrorCode>(funded->Err_0.code()),
        r matches Ok(s) ==> s == opened(*user, amount, lock_days, now, bump) && s.wf(),
        r matches Ok(s) ==> s.unlock_time == s.start_time + s.lock_days * DAY_SECS
            && valid_lock_days(s.lock_days as nat),
        r is Ok ==> *final(pool) == (PoolState {
            total_staked: sat_add(old(pool).total_staked, amount),
            ..*old(pool)
        }),
        r is Err ==> *final(pool) == *old(pool),
        amount < MIN_STAKE ==> r == Err::<StakeAccount, ErrorCode>(ErrorCode::MinStakeViolation)
            && final(pool).total_staked == old(pool).total_staked,
{
    check_stake(amount, lock_days)?;
    if let Err(e) = funded {
        return Err(e.to_error());
    }
    let s = StakeAccount {
        user: *user,
        amount,
        start_time: now,
        unlock_time: lock_end(now, lock_days),
        lock_days,
        is_active: true,
        cooldown_start: 0,
        bump,
    };
    pool.total_staked = pool.total_staked.saturating_add(amount);
    Ok(s)
}

/// Begins the cooldown of `s` at `now`: the lock must have ended and no
/// cooldown may be running. No funds move.
pub fn start_unstake(s: &mut StakeAccount, caller: &Key, now: i64) -> (r: Result<(), ErrorCode>)
    ensures
        r == as_result(start_unstake_error(*old(s), *caller, now)),
        r is Ok ==> *final(s) == cooling(*old(s), now),
        r is Err ==> *final(s) == *old(s),
        old(s).wf() ==> final(s).wf(),
{
    check_start_unstake(s, caller, now)?;
    s.cooldown_start = now;
    Ok(())
}

/// Ends the stake `s` once its cooldown has run, handing its funds back.
///
/// `released` is the ledger's answer to the transfer of the stake's amount
/// from custody back to the user, signed by the pool and made once
/// `check_complete_unstake` has passed. A rejected transfer leaves the stake
/// in its cooldown for a later try. On success the pool's total shrinks by the
/// amount, floored at zero, and the record is withdrawn for good.
pub fn complete_unstake(
    pool: &mut PoolState,
    s: &mut StakeAccount,
    caller: &Key,
    now: i64,
    released: Result<(), LedgerError>,
) -> (r: Result<(), ErrorCode>)
    ensures
        r is Ok <==> complete_unstake_error(*old(s), *caller, now) is None && released is Ok,
        complete_unstake_error(*old(s), *caller, now) matches Some(e) ==> r == Err::<(), ErrorCode>(e),
        complete_unstake_error(*old(s), *caller, now) is None && released is Err ==> r
            == Err::<(), ErrorCode>(released->Err_0.code()),
        r is Ok ==> *final(s) == withdrawn(*old(s)) && *final(pool) == (PoolState {
            total_staked: sat_sub(old(pool).total_staked, old(s).amount),
            ..*old(pool)
        }),
        r is Err ==> *final(s) == *old(s) && *final(pool) == *old(pool),
        old(s).wf() ==> final(s).wf(),
        caller@ == old(s).user@ && old(s).is_active && old(s).cooldown_start > 0 && now
            < old(s).cooldown_start + COOLDOWN_SECS ==> r == Err::<(), ErrorCode>(ErrorCode::CooldownNotElapsed),
{
    check_complete_unstake(s, caller, now)?;
    if let Err(e) = released {
        return Err(e.to_error());
    }
    pool.total_staked = pool.total_staked.saturating_sub(s.amount);
    s.is_active = false;
    Ok(())
}

/// Relocks the matured stake `s` at `now` for `lock_days` days, clearing any
/// cooldown that was running. No funds move and the pool is not touched.
pub fn restake(s: &mut StakeAccount, caller: &Key, lock_days: u64, now: i64) -> (r: Result<(), ErrorCode>)
    requires
        restake_error(*old(s), *caller, lock_days, now) is None ==> unlock_fits(now, lock_days),
    ensures
        r == as_result(restake_error(*old(s), *caller, lock_days, now)),
        r is Ok ==> *final(s) == relocked(*old(s), lock_days, now),
        r is Err ==> *final(s) == *old(s),
        old(s).wf() ==> final(s).wf(),
{
    check_restake(s, caller, lock_days, now)?;
    s.start_time = now;
    s.unlock_time = lock_end(now, lock_days);
    s.lock_days = lock_days;
    s.cooldown_start = 0;
    Ok(())
}

} // verus!
