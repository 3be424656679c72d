use vstd::prelude::*;
use crate::key::Key;
use crate::amm::AmmSet;

verus! {

/// Why a call into the launch-protection program failed.
#[derive(Clone, Copy, Debug, PartialEq, Eq, Structural)]
pub enum ErrorCode {
    /// The transfer touches an AMM account inside the protection window.
    TransferBlockedByAntiSniper,
    /// Reserved for operations that need an active window.
    ProtectionNotActive,
    /// A protection window already exists for the asset.
    AlreadyInitialized,
}

impl ErrorCode {
    /// The message shown to users for this error.
    pub fn message(&self) -> (r: &'static str) {
        match self {
            ErrorCode::TransferBlockedByAntiSniper => "Transfer blocked by anti-sniper protection",
            ErrorCode::ProtectionNotActive => "Anti-sniper protection not active",
            ErrorCode::AlreadyInitialized => "Anti-sniper protection already initialized",
        }
    }
}

/// The launch-protection window of one asset.
#[derive(Clone, Copy, Debug)]
pub struct AntiSniperAccount {
    pub token_mint: Key,
    pub launch_timestamp: i64,
    pub protection_duration: i64,
    pub is_active: bool,
    pub bump: u8,
}

impl AntiSniperAccount {
    /// The first second at which the window no longer protects the asset.
    pub open spec fn protection_end(&self) -> int {
        self.launch_timestamp + self.protection_duration
    }

    /// Whether the window blocks AMM transfers at `now`: it is active and
    /// `now` lies in `[launch_timestamp, protection_end)` or before it.
    pub open spec fn protects_at(&self, now: int) -> bool {
        now < self.protection_end() && self.is_active
    }
}

/// Whether a transfer at `now` from an account owned by `source_owner` to one
/// owned by `destination_owner` is allowed under `window`.
pub open spec fn transfer_allowed(
    window: AntiSniperAccount,
    amms: Set<Seq<u8>>,
    now: int,
    source_owner: Seq<u8>,
    destination_owner: Seq<u8>,
) -> bool {
    !(window.protects_at(now) && (amms.contains(destination_owner) || amms.contains(source_owner)))
}

/// `window` after the emergency switch: inactive, all else kept.
pub open spec fn disabled(window: AntiSniperAccount) -> AntiSniperAccount {
    AntiSniperAccount { is_active: false, ..window }
}

/// Opens the protection window of `token_mint`: it runs from `launch_timestamp`
/// for `protection_duration` seconds, and is active.
pub fn initialize_anti_sniper(
    token_mint: Key,
    launch_timestamp: i64,
    protection_duration: i64,
    bump: u8,
) -> (r: AntiSniperAccount)
    ensures
        r.token_mint == token_mint,
        r.launch_timestamp == launch_timestamp,
        r.protection_duration == protection_duration,
        r.is_active,
        r.bump == bump,
{
    AntiSniperAccount { token_mint, launch_timestamp, protection_duration, is_active: true, bump }
}

/// Whether `owner` is one of the AMM custodians in `amms`.
pub fn is_amm_account(amms: &AmmSet, owner: &Key) -> (r: bool)
    ensures
        r == amms@.contains(owner@),
{
    amms.contains(owner)
}

/// Decides a transfer at `current_timestamp` between accounts owned by
/// `source_owner` and `destination_owner`. While the window is active and
/// `current_timestamp < protection_end`, a transfer into or out of an AMM
/// account is blocked; every other transfer is allowed.
pub fn transfer_hook(
    anti_sniper: &AntiSniperAccount,
    amms: &AmmSet,
    current_timestamp: i64,
    source_owner: &Key,
    destination_owner: &Key,
) -> (r: Result<(), ErrorCode>)
    ensures
        transfer_allowed(*anti_sniper, amms@, current_timestamp as int, source_owner@, destination_owner@)
            <==> r is Ok,
        r is Err ==> r == Err::<(), ErrorCode>(ErrorCode::TransferBlockedByAntiSniper),
{
    let protection_end: i128 = anti_sniper.launch_timestamp as i128 + anti_sniper.protection_duration as i128;
    if (current_timestamp as i128) < protection_end && anti_sniper.is_active {
        if is_amm_account(amms, destination_owner) {
            return Err(ErrorCode::TransferBlockedByAntiSniper);
        }
        if is_amm_account(amms, source_owner) {
            return Err(ErrorCode::TransferBlockedByAntiSniper);
        }
    }
    Ok(())
}

/// Switches protection off for good; switching off a window that is already
/// off changes nothing and is no error.
pub fn disable_protection(anti_sniper: &mut AntiSniperAccount) -> (r: Result<(), ErrorCode>)
    ensures
        r is Ok,
        *final(anti_sniper) == disabled(*old(anti_sniper)),
{
    anti_sniper.is_active = false;
    Ok(())
}

/// The protection windows of all assets, at most one per mint.
pub struct ProtectionRegistry {
    windows: Vec<AntiSniperAccount>,
}

impl View for ProtectionRegistry {
    type V = Seq<AntiSniperAccount>;

    closed spec fn view(&self) -> Seq<AntiSniperAccount> {
        self.windows@
    }
}

/// Whether some window in `windows` protects the asset `mint`.
pub open spec fn has_window(windows: Seq<AntiSniperAccount>, mint: Seq<u8>) -> bool {
    exists|i: int| 0 <= i < windows.len() && #[trigger] windows[i].token_mint@ == mint
}

impl ProtectionRegistry {
    /// No two windows protect the same asset.
    pub open spec fn wf(&self) -> bool {
        forall|i: int, j: int|
            0 <= i < self@.len() && 0 <= j < self@.len() && #[trigger] self@[i].token_mint@ == #[trigger] self@[j].token_mint@
                ==> i == j
    }

    /// A registry with no window.
    pub fn new() -> (r: ProtectionRegistry)
        ensures
            r.wf(),
            r@ == Seq::<AntiSniperAccount>::empty(),
    {
        ProtectionRegistry { windows: Vec::new() }
    }

    /// The position of the window of `mint`, if there is one.
    fn position(&self, mint: &Key) -> (r: Option<usize>)
        ensures
            match r {
                Some(i) => i < self@.len() && self@[i as int].token_mint@ == mint@,
                None => !has_window(self@, mint@),
            },
    {
        let mut i: usize = 0;
        while i < self.windows.len()
            invariant
                0 <= i <= self@.len(),
                forall|j: int| 0 <= j < i ==> self@[j].token_mint@ != mint@,
            decreases self@.len() - i,
        {
            if self.windows[i].token_mint.same_as(mint) {
                return Some(i);
            }
            i = i + 1;
        }
        None
    }

    /// The window of `mint`, if there is one.
    pub fn get(&self, mint: &Key) -> (r: Option<AntiSniperAccount>)
        requires
            self.wf(),
        ensures
            r is Some <==> has_window(self@, mint@),
            forall|i: int| 0 <= i < self@.len() && self@[i].token_mint@ == mint@ ==> r == Some(self@[i]),
    {
        match self.position(mint) {
            Some(i) => Some(self.windows[i]),
            None => None,
        }
    }

    /// Opens an active window for `token_mint`; fails with `AlreadyInitialized`,
    /// and changes nothing, where the asset has one already.
    pub fn initialize(
        &mut self,
        token_mint: Key,
        launch_timestamp: i64,
        protection_duration: i64,
        bump: u8,
    ) -> (r: Result<(), ErrorCode>)
        requires
            old(self).wf(),
        ensures
            final(self).wf(),
            has_window(old(self)@, token_mint@) ==> r == Err::<(), ErrorCode>(ErrorCode::AlreadyInitialized)
                && final(self)@ == old(self)@,
            !has_window(old(self)@, token_mint@) ==> r is Ok && final(self)@ == old(self)@.push(
                AntiSniperAccount { token_mint, launch_timestamp, protection_duration, is_active: true, bump },
            ),
    {
        if self.position(&token_mint).is_some() {
            return Err(ErrorCode::AlreadyInitialized);
        }
        let w = initialize_anti_sniper(token_mint, launch_timestamp, protection_duration, bump);
        self.windows.push(w);
        Ok(())
    }

    /// Switches off the window of `mint`; fails with `ProtectionNotActive`,
    /// and changes nothing, where the asset has no window.
    pub fn disable(&mut self, mint: &Key) -> (r: Result<(), ErrorCode>)
        requires
            old(self).wf(),
        ensures
            final(self).wf(),
            !has_window(old(self)@, mint@) ==> r == Err::<(), ErrorCode>(ErrorCode::ProtectionNotActive)
                && final(self)@ == old(self)@,
            has_window(old(self)@, mint@) ==> r is Ok && final(self)@.len() == old(self)@.len()
                && forall|i: int| 0 <= i < old(self)@.len() ==> #[trigger] final(self)@[i] == if old(self)@[i].token_mint@ == mint@ {
                    disabled(old(self)@[i])
                } else {
                    old(self)@[i]
                },
    {
        match self.position(mint) {
            Some(i) => {
                let mut w = self.windows[i];
                let _ = disable_protection(&mut w);
                self.windows.set(i, w);
                assert forall|j: int| 0 <= j < old(self)@.len() implies #[trigger] final(self)@[j] == if old(self)@[j].token_mint@ == mint@ {
                    disabled(old(self)@[j])
                } else {
                    old(self)@[j]
                } by {
                    if old(self)@[j].token_mint@ == mint@ {
                        assert(old(self)@[j].token_mint@ == old(self)@[i as int].token_mint@);
                    }
                };
                Ok(())
            },
            None => Err(ErrorCode::ProtectionNotActive),
        }
    }
}

/// Inside the protection window of an active record, a transfer into an AMM
/// account is blocked, whoever sends it.
pub proof fn lemma_blocks_entry_into_amm(
    window: AntiSniperAccount,
    amms: Set<Seq<u8>>,
    now: int,
    source_owner: Seq<u8>,
    destination_owner: Seq<u8>,
)
    requires
        now < window.protection_end(),
        window.is_active,
        amms.contains(destination_owner),
    ensures
        !transfer_allowed(window, amms, now, source_owner, destination_owner),
{
}

/// The window is half open: at exactly `protection_end` every transfer is allowed.
pub proof fn lemma_allows_at_protection_end(
    window: AntiSniperAccount,
    amms: Set<Seq<u8>>,
    source_owner: Seq<u8>,
    destination_owner: Seq<u8>,
)
    ensures
        transfer_allowed(window, amms, window.protection_end(), source_owner, destination_owner),
{
}

/// A disabled window allows every transfer, at any time and between any owners.
pub proof fn lemma_inactive_allows_all(
    window: AntiSniperAccount,
    amms: Set<Seq<u8>>,
    now: int,
    source_owner: Seq<u8>,
    destination_owner: Seq<u8>,
)
    requires
        !window.is_active,
    ensures
        transfer_allowed(window, amms, now, source_owner, destination_owner),
{
}

/// Disabling twice leaves the same record as disabling once, and that record
/// is inactive.
pub proof fn lemma_disable_idempotent(window: AntiSniperAccount)
    ensures
        disabled(disabled(window)) == disabled(window),
        !disabled(window).is_active,
{
}

} // verus!
