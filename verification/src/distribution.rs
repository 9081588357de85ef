//! The Distribution ledger: reward accounting for one closed pool.
//!
//! A distribution accumulates the rewards funded for a pool's shareholders
//! (`rewards`) and the rewards paid out so far (`claimed`).  Both counters
//! are monotonically non-decreasing under the funding and claiming
//! operations, and the invariant `claimed <= rewards` holds at every
//! observed state, so the unclaimed liability `rewards - claimed` is never
//! negative and no reward is paid twice.

use vstd::prelude::*;

use crate::address::Address;
use crate::errors::ErrorCode;

verus! {

/// The reward-accounting ledger tied to exactly one closed pool.
#[derive(Clone, Copy, Debug, PartialEq, Eq, Structural)]
pub struct Distribution {
    /// Back-reference to the owning pool, by the pool's `reference`
    /// identifier; every operation that touches both ledgers matches it
    /// against the pool's identity.
    pub pool: Address,
    /// Address permitted to fund and manage the distribution.
    pub authority: Address,
    /// Cumulative rewards ever funded, in minor units.
    pub rewards: u64,
    /// Cumulative rewards ever paid out, in minor units.
    pub claimed: u64,
    /// Address-derivation nonce kept for the environment.
    pub bump: u8,
}

impl Distribution {
    /// The distribution invariant: what was paid out never exceeds what
    /// was funded.  Established at creation and preserved by every method.
    pub open spec fn wf(self) -> bool {
        self.claimed <= self.rewards
    }

    /// Fills in the identity of a fresh distribution ledger, leaving the
    /// reward counters untouched.
    pub fn set(&mut self, pool: Address, authority: Address, bump: u8) -> (r: Result<
        (),
        ErrorCode,
    >)
        ensures
            r == Ok::<(), ErrorCode>(()),
            *final(self) == (Distribution { pool, authority, bump, ..*old(self) }),
    {
        self.pool = pool;
        self.authority = authority;
        self.bump = bump;
        Ok(())
    }

    /// Hands control of the distribution to a new authority.
    pub fn set_authority(&mut self, authority: Address)
        ensures
            *final(self) == (Distribution { authority, ..*old(self) }),
    {
        self.authority = authority;
    }

    /// Records newly funded rewards.
    pub fn add_rewards(&mut self, amount: u64)
        requires
            old(self).wf(),
            old(self).rewards + amount <= u64::MAX,
        ensures
            *final(self) == (Distribution {
                rewards: (old(self).rewards + amount) as u64,
                ..*old(self)
            }),
            final(self).wf(),
    {
        self.rewards = self.rewards + amount;
    }

    /// Retracts funded rewards; never below what was already claimed.
    pub fn sub_rewards(&mut self, amount: u64)
        requires
            old(self).wf(),
            old(self).claimed + amount <= old(self).rewards,
        ensures
            *final(self) == (Distribution {
                rewards: (old(self).rewards - amount) as u64,
                ..*old(self)
            }),
            final(self).wf(),
    {
        self.rewards = self.rewards - amount;
    }

    /// Records a paid-out claim.  Callers check the unclaimed-liability
    /// ceiling first; this is the single point where `claimed` grows, and
    /// it preserves the distribution invariant.
    pub fn add_claimed(&mut self, amount: u64)
        requires
            old(self).wf(),
            old(self).claimed + amount <= old(self).rewards,
        ensures
            *final(self) == (Distribution {
                claimed: (old(self).claimed + amount) as u64,
                ..*old(self)
            }),
            final(self).wf(),
    {
        self.claimed = self.claimed + amount;
    }

    /// Retracts a recorded claim.
    pub fn sub_claimed(&mut self, amount: u64)
        requires
            old(self).wf(),
            amount <= old(self).claimed,
        ensures
            *final(self) == (Distribution {
                claimed: (old(self).claimed - amount) as u64,
                ..*old(self)
            }),
            final(self).wf(),
    {
        self.claimed = self.claimed - amount;
    }
}

} // verus!
