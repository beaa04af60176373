use vstd::prelude::*;
use crate::key::Key;
use crate::lifecycle::as_result;
use crate::state::{ErrorCode, LedgerError, PoolState};

verus! {

/// Why `caller` may not move the pool's own funds.
pub open spec fn owner_error(pool: PoolState, caller: Key) -> Option<ErrorCode> {
    if caller@ != pool.authority@ {
        Some(ErrorCode::Unauthorized)
    } else {
        None
    }
}

/// The answer to an owner transfer: the caller is checked first, then the
/// ledger's answer is passed on.
pub open spec fn owner_transfer_result(
    pool: PoolState,
    caller: Key,
    moved: Result<(), LedgerError>,
) -> Result<(), ErrorCode> {
    match owner_error(pool, caller) {
        Some(e) => Err(e),
        None => match moved {
            Ok(()) => Ok(()),
            Err(le) => Err(le.code()),
        },
    }
}

/// Creates the pool of the asset `token_mint`, managed by `authority`, whose
/// funds sit in `token_vault`. `exists` is the storage layer's answer to
/// whether that asset has a pool already; a second pool for one asset is
/// refused.
pub fn initialize(
    authority: &Key,
    token_mint: &Key,
    token_vault: &Key,
    bump: u8,
    exists: bool,
) -> (r: Result<PoolState, ErrorCode>)
    ensures
        exists ==> r == Err::<PoolState, ErrorCode>(ErrorCode::AlreadyExists),
        !exists ==> r == Ok::<PoolState, ErrorCode>(
            PoolState {
                authority: *authority,
                token_mint: *token_mint,
                token_vault: *token_vault,
                total_staked: 0,
                bump,
            },
        ),
{
    if exists {
        return Err(ErrorCode::AlreadyExists);
    }
    Ok(PoolState {
        authority: *authority,
        token_mint: *token_mint,
        token_vault: *token_vault,
        total_staked: 0,
        bump,
    })
}

/// Checks that `caller` manages `pool`, before any funds move.
pub fn check_owner(pool: &PoolState, caller: &Key) -> (r: Result<(), ErrorCode>)
    ensures
        r == as_result(owner_error(*pool, *caller)),
{
    if !caller.same(&pool.authority) {
        return Err(ErrorCode::Unauthorized);
    }
    Ok(())
}

/// Funds the pool from its manager's account. `deposited` is the ledger's
/// answer to that transfer, made once `check_owner` has passed. The staked
/// total is not touched: this is money for payouts, not a stake.
pub fn owner_deposit(pool: &PoolState, caller: &Key, deposited: Result<(), LedgerError>) -> (r:
    Result<(), ErrorCode>)
    ensures
        r == owner_transfer_result(*pool, *caller, deposited),
{
    check_owner(pool, caller)?;
    match deposited {
        Ok(()) => Ok(()),
        Err(e) => Err(e.to_error()),
    }
}

/// Pays funds out of custody to the pool's manager. `paid` is the
/// ledger's answer to that transfer, signed by the pool and made once
/// `check_owner` has passed. No ceiling is set against the staked total: the
/// manager is trusted with the custody account. The staked total is not
/// touched.
pub fn owner_withdraw(pool: &PoolState, caller: &Key, paid: Result<(), LedgerError>) -> (r:
    Result<(), ErrorCode>)
    ensures
        r == owner_transfer_result(*pool, *caller, paid),
{
    check_owner(pool, caller)?;
    match paid {
        Ok(()) => Ok(()),
        Err(e) => Err(e.to_error()),
    }
}

} // verus!
