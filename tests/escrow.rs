use noottools::noottools_escrow::{
    check_and_unlock, deposit_lp_tokens, initialize_escrow, lock_share, withdraw_lp_tokens,
    CustodyVault, ErrorCode, EscrowAccount, Holding,
};
use noottools::Key;

fn escrow(min_holders: u64, min_volume_usd: u64) -> EscrowAccount {
    initialize_escrow(Key::new([1; 32]), Key::new([2; 32]), min_holders, min_volume_usd, 254)
}

#[test]
fn initialize_starts_locked_and_empty() {
    let e = escrow(100, 5000);
    assert_eq!(e.locked_amount, 0);
    assert!(!e.is_unlocked);
    assert_eq!(e.min_holders, 100);
    assert_eq!(e.min_volume_usd, 5000);
    assert_eq!(e.bump, 254);
    assert_eq!(e.pool_address.bytes, [1; 32]);
    assert_eq!(e.lp_mint.bytes, [2; 32]);
}

#[test]
fn lock_share_rounds_down() {
    assert_eq!(lock_share(1000), 600);
    assert_eq!(lock_share(0), 0);
    assert_eq!(lock_share(1), 0);
    assert_eq!(lock_share(2), 1);
    assert_eq!(lock_share(5), 3);
    assert_eq!(lock_share(999), 599);
    assert_eq!(lock_share(u64::MAX), 11068046444225730969);
}

#[test]
fn deposit_locks_sixty_percent() {
    let mut e = escrow(100, 5000);
    let mut user = Holding { balance: 1000 };
    let mut vault = CustodyVault::new();
    assert_eq!(deposit_lp_tokens(&mut e, &mut user, &mut vault, 1000), Ok(()));
    assert_eq!(e.locked_amount, 600);
    assert_eq!(user.balance, 400);
    assert_eq!(vault.balance(), 600);
    assert_eq!(deposit_lp_tokens(&mut e, &mut user, &mut vault, 5), Ok(()));
    assert_eq!(e.locked_amount, 603);
    assert_eq!(user.balance, 397);
    assert_eq!(vault.balance(), 603);
}

#[test]
fn deposit_fails_on_short_balance() {
    let mut e = escrow(100, 5000);
    let mut user = Holding { balance: 599 };
    let mut vault = CustodyVault::new();
    assert_eq!(
        deposit_lp_tokens(&mut e, &mut user, &mut vault, 1000),
        Err(ErrorCode::InsufficientFunds)
    );
    assert_eq!(e.locked_amount, 0);
    assert_eq!(user.balance, 599);
    assert_eq!(vault.balance(), 0);
}

#[test]
fn deposit_fails_on_overflow() {
    let mut e = escrow(100, 5000);
    e.locked_amount = u64::MAX;
    let mut user = Holding { balance: 1000 };
    let mut vault = CustodyVault::new();
    assert_eq!(
        deposit_lp_tokens(&mut e, &mut user, &mut vault, 1000),
        Err(ErrorCode::AmountOverflow)
    );
    assert_eq!(user.balance, 1000);
    assert_eq!(e.locked_amount, u64::MAX);
}

#[test]
fn unlock_checks_holders_before_volume() {
    let mut e = escrow(100, 5000);
    assert_eq!(check_and_unlock(&mut e, 50, 10000), Err(ErrorCode::InsufficientHolders));
    assert_eq!(check_and_unlock(&mut e, 50, 0), Err(ErrorCode::InsufficientHolders));
    assert_eq!(check_and_unlock(&mut e, 100, 4999), Err(ErrorCode::InsufficientVolume));
    assert!(!e.is_unlocked);
    assert_eq!(check_and_unlock(&mut e, 100, 5000), Ok(()));
    assert!(e.is_unlocked);
    assert_eq!(check_and_unlock(&mut e, 1000, 100000), Err(ErrorCode::EscrowAlreadyUnlocked));
    assert_eq!(check_and_unlock(&mut e, 0, 0), Err(ErrorCode::EscrowAlreadyUnlocked));
    assert!(e.is_unlocked);
}

#[test]
fn withdraw_refused_while_locked() {
    let mut e = escrow(100, 5000);
    let mut user = Holding { balance: 1000 };
    let mut vault = CustodyVault::new();
    assert_eq!(deposit_lp_tokens(&mut e, &mut user, &mut vault, 1000), Ok(()));
    assert_eq!(
        withdraw_lp_tokens(&mut e, &mut vault, &mut user, 1),
        Err(ErrorCode::EscrowStillLocked)
    );
    assert_eq!(e.locked_amount, 600);
    assert_eq!(vault.balance(), 600);
}

#[test]
fn withdraw_beyond_locked_amount_refused() {
    let mut e = escrow(1, 1);
    let mut user = Holding { balance: 100 };
    let mut vault = CustodyVault::new();
    assert_eq!(deposit_lp_tokens(&mut e, &mut user, &mut vault, 100), Ok(()));
    assert_eq!(check_and_unlock(&mut e, 1, 1), Ok(()));
    assert_eq!(
        withdraw_lp_tokens(&mut e, &mut vault, &mut user, 61),
        Err(ErrorCode::InsufficientBalance)
    );
    assert_eq!(withdraw_lp_tokens(&mut e, &mut vault, &mut user, 20), Ok(()));
    assert_eq!(e.locked_amount, 40);
    assert_eq!(vault.balance(), 40);
    assert_eq!(user.balance, 60);
}

#[test]
fn withdraw_fails_on_recipient_overflow() {
    let mut e = escrow(0, 0);
    let mut user = Holding { balance: 100 };
    let mut vault = CustodyVault::new();
    assert_eq!(deposit_lp_tokens(&mut e, &mut user, &mut vault, 100), Ok(()));
    assert_eq!(check_and_unlock(&mut e, 0, 0), Ok(()));
    let mut rich = Holding { balance: u64::MAX };
    assert_eq!(
        withdraw_lp_tokens(&mut e, &mut vault, &mut rich, 1),
        Err(ErrorCode::AmountOverflow)
    );
    assert_eq!(e.locked_amount, 60);
}

#[test]
fn escrow_full_cycle() {
    let mut e = escrow(100, 5000);
    let mut user = Holding { balance: 1000 };
    let mut vault = CustodyVault::new();
    assert_eq!(deposit_lp_tokens(&mut e, &mut user, &mut vault, 1000), Ok(()));
    assert_eq!(e.locked_amount, 600);
    assert_eq!(user.balance, 400);
    assert_eq!(check_and_unlock(&mut e, 50, 10000), Err(ErrorCode::InsufficientHolders));
    assert_eq!(check_and_unlock(&mut e, 150, 10000), Ok(()));
    assert!(e.is_unlocked);
    assert_eq!(withdraw_lp_tokens(&mut e, &mut vault, &mut user, 600), Ok(()));
    assert_eq!(e.locked_amount, 0);
    assert_eq!(vault.balance(), 0);
    assert_eq!(user.balance, 1000);
    assert_eq!(
        withdraw_lp_tokens(&mut e, &mut vault, &mut user, 1),
        Err(ErrorCode::InsufficientBalance)
    );
}

#[test]
fn escrow_messages() {
    assert_eq!(ErrorCode::EscrowAlreadyUnlocked.message(), "Escrow is already unlocked");
    assert_eq!(ErrorCode::InsufficientHolders.message(), "Insufficient holders to unlock escrow");
    assert_eq!(
        ErrorCode::InsufficientVolume.message(),
        "Insufficient trading volume to unlock escrow"
    );
    assert_eq!(ErrorCode::EscrowStillLocked.message(), "Escrow is still locked");
    assert_eq!(ErrorCode::InsufficientBalance.message(), "Insufficient balance in escrow");
}
