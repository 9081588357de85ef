//! Accounting core of a fixed-term pooled investment vehicle.
//!
//! Participants deposit a stable-value asset into a pool in exchange for
//! proportional shares, the pool operator later funds a rewards
//! distribution, and shareholders claim their rewards before the pool's
//! bookkeeping accounts are retired.  This crate verifies the share/deposit
//! conversion math and the invariant-preserving state machine for the Pool
//! and Distribution ledgers: shares are never over-issued, rewards are never
//! over-claimed, and every counter update is exact and overflow-free.
//!
//! The collaborators that move the asset between accounts, derive account
//! addresses, and authenticate callers are external to this crate: the
//! functions here take the values those collaborators produce (balances,
//! signer addresses) as plain arguments and state in their contracts what
//! they decide for every such value.

pub mod address;
pub mod distribution;
pub mod errors;
pub mod instructions;
pub mod laws;
pub mod pool;
pub mod registry;
