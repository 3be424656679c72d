//! Launch-protection and liquidity-escrow policy for a token ledger.
//!
//! `anti_sniper_hook` decides whether a transfer may touch an automated market
//! maker during an asset's protection window; `noottools_escrow` locks a share of
//! deposited liquidity-provider tokens until attested market conditions are met.
mod key;
mod amm;
pub mod anti_sniper_hook;
pub mod noottools_escrow;

pub use key::{Key, base58_key};
pub use amm::{AmmSet, RAYDIUM_AMM, ORCA_WHIRLPOOL, ORCA_LEGACY, with_text};
