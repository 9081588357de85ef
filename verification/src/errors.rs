//! The error taxonomy of the ledger core.
//!
//! Every rejected operation surfaces exactly one of these kinds to the
//! caller; no error leaves a ledger counter partially updated.

use vstd::prelude::*;

verus! {

/// Why an operation on a Pool or Distribution ledger was rejected.
#[derive(Clone, Copy, Debug, PartialEq, Eq, Structural)]
pub enum ErrorCode {
    /// Investment period has not ended.
    StartDateNotPassed,
    /// Pool start date has passed.
    StartDatePassed,
    /// Pool maturity date has passed.
    MaturityDatePassed,
    /// Signer not authorized.
    SignerNotAuthorized,
    /// Creator not authorized.
    CreatorNotAuthorized,
    /// Pool not closed.
    PoolNotClosed,
    /// Pool closed.
    PoolClosed,
    /// Total share supply must be at least 1.
    MinimumShares,
    /// Deposit below the minimum, or not a whole multiple of the minimum unit.
    MinimumDeposit,
    /// Seed must be divisible by shares.
    InvalidSeedSharesRatio,
    /// Mint would push `minted` past the `shares` supply cap.
    ExceedsAvailableShares,
    /// Claim or funding exceeds the distribution's held balance or its
    /// unclaimed-liability ceiling.
    InsufficientDistributionUSDCBalance,
    /// Seed rounds are not completed.
    SeedRoundsNotCompleted,
    /// Withdrawal exceeds the pool's held balance.
    InsufficientPoolUSDCBalance,
    /// Retirement attempted while rewards remain unclaimed.
    UnclaimedDistributionRewards,
    /// Retirement attempted while the pool still holds assets.
    NonZeroPoolUSDCBalance,
    /// Retirement attempted while the distribution still holds assets.
    NonZeroDistributionUSDCBalance,
}

} // verus!
