//! A staking and reward-accrual ledger.
//!
//! Users deposit units of a designated farming asset and accrue a reward
//! balance in a second asset, proportional to their share of the total staked
//! supply and to elapsed block time.

use vstd::prelude::*;

pub mod farming;
pub mod state;
pub mod token;

pub use farming::Farming;
pub use state::Ledger;
pub use state::StateModule;
pub use state::UserEntry;
pub use token::TokenIdentifier;

verus! {

/// Number of seconds that make up one block.
pub const BLOCK_TIMES: u64 = 6;

/// Basis-point denominator: 10000 basis points are 100%.
pub const MAX_PERCENT: u64 = 10_000;

/// Why an operation was rejected. Every rejection leaves the ledger unchanged.
#[derive(Clone, Copy, Debug, PartialEq, Eq, Structural)]
pub enum FarmingError {
    /// An asset identifier is not syntactically valid.
    InvalidAssetIdentifier,
    /// The contract is paused: stake, unstake and claim are rejected.
    ContractPaused,
    /// The deposited asset is not the configured farming asset.
    WrongAsset,
    /// The deposited amount is below the configured minimum stake.
    BelowMinimumStake,
    /// The caller has no staked balance to withdraw.
    ZeroBalance,
    /// The requested unstake amount exceeds the caller's staked balance.
    AmountExceedsBalance,
    /// The contract does not hold enough of the asset to pay out.
    InsufficientContractLiquidity,
    /// The accrued reward does not exceed the configured minimum claim.
    BelowMinimumClaim,
    /// The claim cooldown since the last successful claim has not elapsed.
    ClaimCooldownActive,
}

} // verus!
