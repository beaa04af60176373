use vstd::prelude::*;
use crate::key::Key;

verus! {

/// Smallest amount that can be staked, in base units.
pub const MIN_STAKE: u64 = 10_000_000_000;

/// Shortest lock, in days.
pub const MIN_LOCK: u64 = 30;

/// Lock durations above the minimum come in steps of this many days.
pub const LOCK_STEP: u64 = 15;

/// Seconds in a day.
pub const DAY_SECS: i64 = 86400;

/// Days between the start of a cooldown and the release of the funds.
pub const COOLDOWN_DAYS: i64 = 7;

/// Seconds between the start of a cooldown and the release of the funds.
pub const COOLDOWN_SECS: i64 = COOLDOWN_DAYS * DAY_SECS;

/// Why an operation was rejected. Every rejection leaves all state as it was.
#[derive(Clone, Copy, Debug, PartialEq, Eq, Structural)]
pub enum ErrorCode {
    AlreadyExists,
    MinStakeViolation,
    MinLockViolation,
    InvalidLockStep,
    NotActive,
    StillLocked,
    CooldownAlreadyStarted,
    NoCooldownStarted,
    CooldownNotElapsed,
    Unauthorized,
    InsufficientFunds,
}

/// How the asset ledger rejected a transfer.
#[derive(Clone, Copy, Debug, PartialEq, Eq, Structural)]
pub enum LedgerError {
    InsufficientFunds,
    Unauthorized,
}

impl LedgerError {
    pub open spec fn code(self) -> ErrorCode {
        match self {
            LedgerError::InsufficientFunds => ErrorCode::InsufficientFunds,
            LedgerError::Unauthorized => ErrorCode::Unauthorized,
        }
    }

    /// The error that a rejected transfer surfaces to the caller.
    pub fn to_error(self) -> (r: ErrorCode)
        ensures
            r == self.code(),
    {
        match self {
            LedgerError::InsufficientFunds => ErrorCode::InsufficientFunds,
            LedgerError::Unauthorized => ErrorCode::Unauthorized,
        }
    }
}

/// One pool per asset: who manages it, what it locks, where the funds sit,
/// and the sum of all stakes that are still held.
#[derive(Clone, Copy, Debug)]
pub struct PoolState {
    pub authority: Key,
    pub token_mint: Key,
    pub token_vault: Key,
    pub total_staked: u64,
    pub bump: u8,
}

/// One user's locked deposit.
#[derive(Clone, Copy, Debug)]
pub struct StakeAccount {
    pub user: Key,
    pub amount: u64,
    pub start_time: i64,
    pub unlock_time: i64,
    pub lock_days: u64,
    pub is_active: bool,
    pub cooldown_start: i64,
    pub bump: u8,
}

/// The lifecycle state of a stake.
pub enum Status {
    Active,
    CooldownPending,
    Withdrawn,
}

/// Lock durations of 30, 45, 60, ... days.
pub open spec fn valid_lock_days(d: nat) -> bool {
    d >= MIN_LOCK && (d - MIN_LOCK) % (LOCK_STEP as int) == 0
}

/// The end of a lock of `lock_days` days that starts at `start`.
pub open spec fn unlock_at(start: int, lock_days: nat) -> int {
    start + lock_days * DAY_SECS
}

/// `a + b`, capped at the largest `u64`.
pub open spec fn sat_add(a: u64, b: u64) -> u64 {
    if a + b > u64::MAX { u64::MAX } else { (a + b) as u64 }
}

/// `a - b`, floored at zero.
pub open spec fn sat_sub(a: u64, b: u64) -> u64 {
    if a < b { 0 } else { (a - b) as u64 }
}

impl StakeAccount {
    pub open spec fn status(self) -> Status {
        if !self.is_active {
            Status::Withdrawn
        } else if self.cooldown_start > 0 {
            Status::CooldownPending
        } else {
            Status::Active
        }
    }

    /// A record as `stake` creates it and the lifecycle keeps it.
    pub open spec fn wf(self) -> bool {
        &&& self.amount >= MIN_STAKE
        &&& valid_lock_days(self.lock_days as nat)
        &&& self.unlock_time == unlock_at(self.start_time as int, self.lock_days as nat)
        &&& self.unlock_time > self.start_time
    }
}

} // verus!
