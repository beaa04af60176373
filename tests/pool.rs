use staking::key::Key;
use staking::lifecycle::stake;
use staking::pool::{check_owner, initialize, owner_deposit, owner_withdraw};
use staking::state::{ErrorCode, LedgerError};

fn key(b: u8) -> Key {
    Key::new([b; 32])
}

#[test]
fn initialize_sets_fields() {
    let p = initialize(&key(1), &key(2), &key(3), 254, false).unwrap();
    assert!(p.authority.same(&key(1)));
    assert!(p.token_mint.same(&key(2)));
    assert!(p.token_vault.same(&key(3)));
    assert!(!p.token_vault.same(&key(2)));
    assert_eq!(p.bump, 254);
    assert_eq!(p.total_staked, 0);
}

#[test]
fn second_pool_for_an_asset_is_refused() {
    let r = initialize(&key(1), &key(2), &key(3), 254, true);
    assert_eq!(r.unwrap_err(), ErrorCode::AlreadyExists);
}

#[test]
fn owner_withdraw_beyond_custody_fails() {
    let mut pool = initialize(&key(1), &key(2), &key(3), 254, false).unwrap();
    stake(&mut pool, &key(7), 10_000_000_000, 30, 0, 1, Ok(())).unwrap();
    assert_eq!(
        owner_withdraw(&pool, &key(1), Err(LedgerError::InsufficientFunds)),
        Err(ErrorCode::InsufficientFunds)
    );
    assert_eq!(pool.total_staked, 10_000_000_000);
    assert_eq!(owner_withdraw(&pool, &key(1), Ok(())), Ok(()));
    assert_eq!(pool.total_staked, 10_000_000_000);
}

#[test]
fn owner_operations_need_the_authority() {
    let pool = initialize(&key(1), &key(2), &key(3), 254, false).unwrap();
    assert_eq!(owner_deposit(&pool, &key(4), Ok(())), Err(ErrorCode::Unauthorized));
    assert_eq!(owner_withdraw(&pool, &key(4), Ok(())), Err(ErrorCode::Unauthorized));
    assert_eq!(check_owner(&pool, &key(4)), Err(ErrorCode::Unauthorized));
    assert_eq!(check_owner(&pool, &key(1)), Ok(()));
    assert_eq!(owner_deposit(&pool, &key(1), Ok(())), Ok(()));
    assert_eq!(
        owner_deposit(&pool, &key(1), Err(LedgerError::InsufficientFunds)),
        Err(ErrorCode::InsufficientFunds)
    );
    assert_eq!(pool.total_staked, 0);
}

#[test]
fn ledger_errors_map_to_codes() {
    assert_eq!(LedgerError::InsufficientFunds.to_error(), ErrorCode::InsufficientFunds);
    assert_eq!(LedgerError::Unauthorized.to_error(), ErrorCode::Unauthorized);
}

#[test]
fn keys_compare_by_bytes() {
    let mut b = [5u8; 32];
    assert!(key(5).same(&Key::new(b)));
    b[31] = 6;
    assert!(!key(5).same(&Key::new(b)));
    b[31] = 5;
    b[0] = 0;
    assert!(!key(5).same(&Key::new(b)));
}
