use vstd::prelude::*;
use crate::key::Key;

verus! {

/// Why a call into the escrow program failed.
#[derive(Clone, Copy, Debug, PartialEq, Eq, Structural)]
pub enum ErrorCode {
    /// The escrow has been unlocked before.
    EscrowAlreadyUnlocked,
    /// The attested holder count is below the escrow's minimum.
    InsufficientHolders,
    /// The attested trading volume is below the escrow's minimum.
    InsufficientVolume,
    /// The escrow is not unlocked yet.
    EscrowStillLocked,
    /// The amount asked for exceeds what the escrow holds locked.
    InsufficientBalance,
    /// The account to be debited holds less than the amount moved.
    InsufficientFunds,
    /// The amount would not fit in the account credited.
    AmountOverflow,
}

impl ErrorCode {
    /// The message shown to users for this error.
    pub fn message(&self) -> (r: &'static str) {
        match self {
            ErrorCode::EscrowAlreadyUnlocked => "Escrow is already unlocked",
            ErrorCode::InsufficientHolders => "Insufficient holders to unlock escrow",
            ErrorCode::InsufficientVolume => "Insufficient trading volume to unlock escrow",
            ErrorCode::EscrowStillLocked => "Escrow is still locked",
            ErrorCode::InsufficientBalance => "Insufficient balance in escrow",
            ErrorCode::InsufficientFunds => "Insufficient funds in the debited account",
            ErrorCode::AmountOverflow => "Amount overflows the credited account",
        }
    }
}

/// The escrow record of one liquidity pool.
#[derive(Clone, Copy, Debug)]
pub struct EscrowAccount {
    pub pool_address: Key,
    pub lp_mint: Key,
    pub min_holders: u64,
    pub min_volume_usd: u64,
    pub locked_amount: u64,
    pub is_unlocked: bool,
    pub bump: u8,
}

/// A token account of a depositor or a recipient.
#[derive(Clone, Copy, Debug)]
pub struct Holding {
    pub balance: u64,
}

/// The account that holds an escrow's locked tokens. Its balance is private:
/// only the escrow operations of this module move it.
#[derive(Debug)]
pub struct CustodyVault {
    balance: u64,
}

impl View for CustodyVault {
    type V = u64;

    closed spec fn view(&self) -> u64 {
        self.balance
    }
}

impl CustodyVault {
    /// An empty vault.
    pub fn new() -> (r: CustodyVault)
        ensures
            r@ == 0,
    {
        CustodyVault { balance: 0 }
    }

    /// The vault as the ledger records it, holding `balance` tokens.
    pub fn restore(balance: u64) -> (r: CustodyVault)
        ensures
            r@ == balance,
    {
        CustodyVault { balance }
    }

    /// The number of tokens in the vault.
    pub fn balance(&self) -> (r: u64)
        ensures
            r == self@,
    {
        self.balance
    }
}

/// The share of a deposit of `amount` that is locked: 60 percent, rounded down.
pub open spec fn lock_share_of(amount: u64) -> int {
    amount * 60 / 100
}

/// The error, if any, with which a deposit of `amount` fails.
pub open spec fn deposit_error(escrow: EscrowAccount, user_balance: u64, vault_balance: u64, amount: u64) -> Option<ErrorCode> {
    let lock = lock_share_of(amount);
    if user_balance < lock {
        Some(ErrorCode::InsufficientFunds)
    } else if escrow.locked_amount + lock > u64::MAX || vault_balance + lock > u64::MAX {
        Some(ErrorCode::AmountOverflow)
    } else {
        None
    }
}

/// The error, if any, with which an unlock on the attested figures fails.
pub open spec fn unlock_error(escrow: EscrowAccount, holders_count: u64, volume_usd: u64) -> Option<ErrorCode> {
    if escrow.is_unlocked {
        Some(ErrorCode::EscrowAlreadyUnlocked)
    } else if holders_count < escrow.min_holders {
        Some(ErrorCode::InsufficientHolders)
    } else if volume_usd < escrow.min_volume_usd {
        Some(ErrorCode::InsufficientVolume)
    } else {
        None
    }
}

/// The error, if any, with which a withdrawal of `amount` fails.
pub open spec fn withdraw_error(escrow: EscrowAccount, vault_balance: u64, user_balance: u64, amount: u64) -> Option<ErrorCode> {
    if !escrow.is_unlocked {
        Some(ErrorCode::EscrowStillLocked)
    } else if amount > escrow.locked_amount {
        Some(ErrorCode::InsufficientBalance)
    } else if vault_balance < amount {
        Some(ErrorCode::InsufficientFunds)
    } else if user_balance + amount > u64::MAX {
        Some(ErrorCode::AmountOverflow)
    } else {
        None
    }
}

/// `escrow` once unlocked.
pub open spec fn unlocked(escrow: EscrowAccount) -> EscrowAccount {
    EscrowAccount { is_unlocked: true, ..escrow }
}

/// `escrow` with `locked_amount` as what it holds locked.
pub open spec fn with_locked(escrow: EscrowAccount, locked_amount: int) -> EscrowAccount {
    EscrowAccount { locked_amount: locked_amount as u64, ..escrow }
}

/// Opens the escrow of the pool `pool_address`: nothing locked, not unlocked.
pub fn initialize_escrow(
    pool_address: Key,
    lp_mint: Key,
    min_holders: u64,
    min_volume_usd: u64,
    bump: u8,
) -> (r: EscrowAccount)
    ensures
        r.pool_address == pool_address,
        r.lp_mint == lp_mint,
        r.min_holders == min_holders,
        r.min_volume_usd == min_volume_usd,
        r.locked_amount == 0,
        !r.is_unlocked,
        r.bump == bump,
{
    EscrowAccount { pool_address, lp_mint, min_holders, min_volume_usd, locked_amount: 0, is_unlocked: false, bump }
}

/// The share of a deposit of `amount` that is locked: `floor(amount * 60 / 100)`.
pub fn lock_share(amount: u64) -> (r: u64)
    ensures
        r == lock_share_of(amount),
        r <= amount,
{
    ((amount as u128) * 60 / 100) as u64
}

/// Deposits liquidity-provider tokens: 60 percent of `amount`, rounded down,
/// moves from the depositor's account into the vault and is added to the
/// locked amount; the rest stays with the depositor.
pub fn deposit_lp_tokens(
    escrow: &mut EscrowAccount,
    user_lp_account: &mut Holding,
    escrow_vault: &mut CustodyVault,
    amount: u64,
) -> (r: Result<(), ErrorCode>)
    ensures
        match deposit_error(*old(escrow), old(user_lp_account).balance, old(escrow_vault)@, amount) {
            Some(e) => r == Err::<(), ErrorCode>(e)
                && *final(escrow) == *old(escrow)
                && *final(user_lp_account) == *old(user_lp_account)
                && final(escrow_vault)@ == old(escrow_vault)@,
            None => r is Ok
                && *final(escrow) == with_locked(*old(escrow), old(escrow).locked_amount + lock_share_of(amount))
                && final(user_lp_account).balance == old(user_lp_account).balance - lock_share_of(amount)
                && final(escrow_vault)@ == old(escrow_vault)@ + lock_share_of(amount),
        },
{
    let lock_amount = lock_share(amount);
    if user_lp_account.balance < lock_amount {
        return Err(ErrorCode::InsufficientFunds);
    }
    if escrow.locked_amount > u64::MAX - lock_amount || escrow_vault.balance > u64::MAX - lock_amount {
        return Err(ErrorCode::AmountOverflow);
    }
    user_lp_account.balance = user_lp_account.balance - lock_amount;
    escrow_vault.balance = escrow_vault.balance + lock_amount;
    escrow.locked_amount = escrow.locked_amount + lock_amount;
    Ok(())
}

/// Unlocks the escrow when the attested holder count and volume reach its
/// minimums. The holder count is checked before the volume; an escrow that is
/// unlocked already is refused.
pub fn check_and_unlock(
    escrow: &mut EscrowAccount,
    holders_count: u64,
    volume_usd: u64,
) -> (r: Result<(), ErrorCode>)
    ensures
        match unlock_error(*old(escrow), holders_count, volume_usd) {
            Some(e) => r == Err::<(), ErrorCode>(e) && *final(escrow) == *old(escrow),
            None => r is Ok && *final(escrow) == unlocked(*old(escrow)),
        },
{
    if escrow.is_unlocked {
        return Err(ErrorCode::EscrowAlreadyUnlocked);
    }
    if holders_count < escrow.min_holders {
        return Err(ErrorCode::InsufficientHolders);
    }
    if volume_usd < escrow.min_volume_usd {
        return Err(ErrorCode::InsufficientVolume);
    }
    escrow.is_unlocked = true;
    Ok(())
}

/// Withdraws `amount` locked tokens from the vault to the recipient's account,
/// once the escrow is unlocked; the locked amount goes down by `amount`.
pub fn withdraw_lp_tokens(
    escrow: &mut EscrowAccount,
    escrow_vault: &mut CustodyVault,
    user_lp_account: &mut Holding,
    amount: u64,
) -> (r: Result<(), ErrorCode>)
    ensures
        match withdraw_error(*old(escrow), old(escrow_vault)@, old(user_lp_account).balance, amount) {
            Some(e) => r == Err::<(), ErrorCode>(e)
                && *final(escrow) == *old(escrow)
                && *final(user_lp_account) == *old(user_lp_account)
                && final(escrow_vault)@ == old(escrow_vault)@,
            None => r is Ok
                && *final(escrow) == with_locked(*old(escrow), old(escrow).locked_amount - amount)
                && final(escrow_vault)@ == old(escrow_vault)@ - amount
                && final(user_lp_account).balance == old(user_lp_account).balance + amount,
        },
{
    if !escrow.is_unlocked {
        return Err(ErrorCode::EscrowStillLocked);
    }
    if amount > escrow.locked_amount {
        return Err(ErrorCode::InsufficientBalance);
    }
    if escrow_vault.balance < amount {
        return Err(ErrorCode::InsufficientFunds);
    }
    if user_lp_account.balance > u64::MAX - amount {
        return Err(ErrorCode::AmountOverflow);
    }
    escrow_vault.balance = escrow_vault.balance - amount;
    user_lp_account.balance = user_lp_account.balance + amount;
    escrow.locked_amount = escrow.locked_amount - amount;
    Ok(())
}

/// The locked share of a deposit never exceeds it, and of a non-empty deposit
/// some part always stays with the depositor: a deposit moves
/// `floor(amount * 60 / 100)`, not the whole `amount`.
pub proof fn lemma_lock_share_bounds(amount: u64)
    ensures
        lock_share_of(amount) <= amount,
        amount > 0 ==> lock_share_of(amount) < amount,
        amount > 0 ==> amount - lock_share_of(amount) >= 1,
{
    assert(amount * 60 / 100 <= amount) by (nonlinear_arith);
    assert(amount > 0 ==> amount * 60 / 100 < amount) by (nonlinear_arith);
}

/// On an escrow not yet unlocked: too few holders fail with
/// `InsufficientHolders` whatever the volume; enough holders and too little
/// volume fail with `InsufficientVolume`; otherwise the unlock succeeds, and
/// every later attempt fails with `EscrowAlreadyUnlocked`.
pub proof fn lemma_unlock_thresholds(
    escrow: EscrowAccount,
    holders_count: u64,
    volume_usd: u64,
    later_holders: u64,
    later_volume: u64,
)
    requires
        !escrow.is_unlocked,
    ensures
        holders_count < escrow.min_holders
            ==> unlock_error(escrow, holders_count, volume_usd) == Some(ErrorCode::InsufficientHolders),
        unlock_error(escrow, holders_count, volume_usd) == Some(ErrorCode::InsufficientVolume)
            <==> (holders_count >= escrow.min_holders && volume_usd < escrow.min_volume_usd),
        unlock_error(escrow, holders_count, volume_usd) is None
            <==> (holders_count >= escrow.min_holders && volume_usd >= escrow.min_volume_usd),
        unlocked(escrow).is_unlocked,
        unlock_error(unlocked(escrow), later_holders, later_volume) == Some(ErrorCode::EscrowAlreadyUnlocked),
{
}

/// Before unlock a withdrawal fails with `EscrowStillLocked`; after unlock one
/// of more than the locked amount fails with `InsufficientBalance`; one that
/// succeeds asks for no more than the locked amount and the vault hold, and
/// lowers the locked amount by exactly `amount`.
pub proof fn lemma_withdraw_rules(escrow: EscrowAccount, vault_balance: u64, user_balance: u64, amount: u64)
    ensures
        !escrow.is_unlocked
            ==> withdraw_error(escrow, vault_balance, user_balance, amount) == Some(ErrorCode::EscrowStillLocked),
        escrow.is_unlocked && amount > escrow.locked_amount
            ==> withdraw_error(escrow, vault_balance, user_balance, amount) == Some(ErrorCode::InsufficientBalance),
        withdraw_error(escrow, vault_balance, user_balance, amount) is None ==> {
            &&& escrow.is_unlocked
            &&& amount <= escrow.locked_amount
            &&& amount <= vault_balance
            &&& with_locked(escrow, escrow.locked_amount - amount).locked_amount == escrow.locked_amount - amount
        },
{
}

} // verus!
