//! Account addresses.
//!
//! The execution environment identifies every actor and account by a
//! 256-bit address.  The core only stores addresses and compares them for
//! equality, so an address is modelled here as two plain 128-bit halves;
//! the unverified shell converts between this form and the environment's
//! native key type.

use vstd::prelude::*;

verus! {

/// A 256-bit account address, split into two 128-bit halves
/// (`hi` holds the first 16 bytes, `lo` the last 16).
#[derive(Clone, Copy, Debug, PartialEq, Eq, Structural)]
pub struct Address {
    pub hi: u128,
    pub lo: u128,
}

impl Address {
    /// Builds an address from its two halves.
    pub fn new(hi: u128, lo: u128) -> (a: Address)
        ensures
            a == (Address { hi, lo }),
    {
        Address { hi, lo }
    }
}

} // verus!
