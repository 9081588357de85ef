//! The Pool ledger: share-issuance accounting for one fundraising pool.
//!
//! A pool carries an immutable total share supply (`shares`, at least 1), a
//! cumulative count of shares issued so far (`minted`), and a one-way
//! lifecycle flag (`closed`).  The invariant `minted <= shares` holds at
//! every observed state, and once the pool is closed `minted` never changes.
//!
//! Deposits convert to shares at a fixed rate: one share costs exactly
//! `SCALE` minor units of the stable asset, independent of the supply cap.
//! The proportional form `(deposit * shares) / (shares * SCALE)` reduces to
//! `deposit / SCALE` for every valid supply, and the lemmas below prove that
//! reduction, so the contracts state both forms.

use vstd::prelude::*;

use crate::address::Address;
use crate::errors::ErrorCode;
use vstd::arithmetic::div_mod::{
    lemma_div_denominator, lemma_div_multiples_vanish, lemma_div_pos_is_pos,
    lemma_fundamental_div_mod, lemma_mod_bound, lemma_mod_multiples_basic,
};
use vstd::arithmetic::mul::{lemma_mul_is_commutative, lemma_mul_nonnegative};

verus! {

/// Minor units of the stable asset per whole unit; one share costs exactly
/// this many minor units.
pub const SCALE: u64 = 1_000_000;

/// The smallest deposit accepted at pool creation: 100 whole units of the
/// stable asset, in minor units.
pub const MIN_DEPOSIT: u64 = 100_000_000;

/// How many whole shares a deposit of `deposit` minor units buys
/// (truncating division: rounding always favors the pool).
pub open spec fn shares_of_deposit(deposit: int) -> int {
    deposit / (SCALE as int)
}

/// The deposit, in minor units, that corresponds to `count` shares.
pub open spec fn deposit_of_shares(count: int) -> int {
    count * (SCALE as int)
}

/// The share-issuance ledger of one fundraising pool.
#[derive(Clone, Copy, Debug, PartialEq, Eq, Structural)]
pub struct Pool {
    /// Address that funded initialization.
    pub creator: Address,
    /// Address permitted to withdraw, close, and retire.
    pub authority: Address,
    /// Unique external identifier; the pool's account address is derived
    /// from it, and its Distribution refers back to the pool through it.
    pub reference: Address,
    /// Identifier of the issued share token.
    pub mint: Address,
    /// Immutable total supply cap, at least 1.
    pub shares: u64,
    /// Cumulative shares issued so far; never exceeds `shares`.
    pub minted: u64,
    /// One-way lifecycle flag: false while open, true once closed.
    pub closed: bool,
    /// Address-derivation nonce kept for the environment.
    pub bump: u8,
    /// Informational start timestamp; not enforced by the core.
    pub start_date: u64,
    /// Informational maturity timestamp; not enforced by the core.
    pub maturity_date: u64,
    /// Informational yield figure.
    pub apy: u8,
}

impl Pool {
    /// The pool invariant: the supply cap is at least 1 and issuance never
    /// exceeds it.  Established at creation and preserved by every method.
    pub open spec fn wf(self) -> bool {
        1 <= self.shares && self.minted <= self.shares
    }

    /// Fills a fresh pool ledger: identity and parameters as given, no
    /// shares issued yet, lifecycle open.
    pub fn init(
        &mut self,
        creator: Address,
        authority: Address,
        reference: Address,
        mint: Address,
        shares: u64,
        start_date: u64,
        maturity_date: u64,
        bump: u8,
        apy: u8,
    ) -> (r: Result<(), ErrorCode>)
        requires
            1 <= shares,
        ensures
            r == Ok::<(), ErrorCode>(()),
            *final(self) == (Pool {
                creator,
                authority,
                reference,
                mint,
                shares,
                minted: 0,
                closed: false,
                bump,
                start_date,
                maturity_date,
                apy,
            }),
            final(self).wf(),
    {
        self.creator = creator;
        self.authority = authority;
        self.reference = reference;
        self.mint = mint;
        self.shares = shares;
        self.minted = 0;
        self.closed = false;
        self.bump = bump;
        self.start_date = start_date;
        self.maturity_date = maturity_date;
        self.apy = apy;
        Ok(())
    }

    /// Converts a deposit to the number of whole shares it buys.  The
    /// result agrees with the proportional form over the supply cap and
    /// rounds down, so it never overstates what the deposit is worth.
    pub fn get_shares_from_deposit(&self, deposit: u64) -> (count: u64)
        requires
            self.wf(),
        ensures
            count == shares_of_deposit(deposit as int),
            count as int == (deposit as int * self.shares as int)
                / (self.shares as int * SCALE as int),
            count <= deposit,
    {
        proof {
            lemma_conversion_matches_proportional_form(deposit as int, self.shares as int);
        }
        deposit / SCALE
    }

    /// Converts a share count to its deposit price in minor units.  The
    /// result agrees with the proportional form over the supply cap and is
    /// always a whole multiple of the minimum deposit unit.
    pub fn get_deposit_from_shares(&self, count: u64) -> (deposit: u64)
        requires
            self.wf(),
            count * SCALE <= u64::MAX,
        ensures
            deposit == deposit_of_shares(count as int),
            deposit as int == (count as int * (self.shares as int * SCALE as int))
                / self.shares as int,
            deposit % SCALE == 0,
    {
        proof {
            lemma_inverse_matches_proportional_form(count as int, self.shares as int);
            lemma_mod_multiples_basic(count as int, SCALE as int);
        }
        count * SCALE
    }

    /// The smallest deposit that buys a whole share: one `SCALE` of minor
    /// units, independent of the supply cap.
    pub fn get_min_deposit(&self) -> (unit: u64)
        requires
            self.wf(),
        ensures
            unit == SCALE,
    {
        self.get_deposit_from_shares(1)
    }

    /// True exactly when the deposit is a whole multiple of the minimum
    /// deposit unit, i.e. converts to a whole number of shares with no
    /// remainder.
    pub fn is_valid_deposit(&self, deposit: u64) -> (valid: bool)
        requires
            self.wf(),
        ensures
            valid <==> deposit % SCALE == 0,
    {
        let unit: u64 = self.get_min_deposit();
        deposit % unit == 0
    }

    /// Issues `amount` further shares.  Callers check the supply cap and
    /// the lifecycle gate first; this is the single point where `minted`
    /// grows, and it preserves the pool invariant.
    pub fn add_minted(&mut self, amount: u64)
        requires
            old(self).wf(),
            !old(self).closed,
            old(self).minted + amount <= old(self).shares,
        ensures
            *final(self) == (Pool {
                minted: (old(self).minted + amount) as u64,
                ..*old(self)
            }),
            final(self).wf(),
    {
        self.minted = self.minted + amount;
    }

    /// Retracts `amount` previously issued shares.
    pub fn sub_minted(&mut self, amount: u64)
        requires
            old(self).wf(),
            !old(self).closed,
            amount <= old(self).minted,
        ensures
            *final(self) == (Pool {
                minted: (old(self).minted - amount) as u64,
                ..*old(self)
            }),
            final(self).wf(),
    {
        self.minted = self.minted - amount;
    }
}

/// For every supply cap of at least 1, the proportional conversion
/// `(deposit * total) / (total * SCALE)` reduces to plain `deposit / SCALE`:
/// the cap is an issuance limit, not a price parameter.
pub proof fn lemma_conversion_matches_proportional_form(deposit: int, total: int)
    requires
        0 <= deposit,
        1 <= total,
    ensures
        (deposit * total) / (total * SCALE as int) == deposit / (SCALE as int),
{
    let k = SCALE as int;
    lemma_mul_nonnegative(deposit, total);
    lemma_div_denominator(deposit * total, total, k);
    lemma_mul_is_commutative(deposit, total);
    lemma_div_multiples_vanish(deposit, total);
}

/// For every supply cap of at least 1, the proportional inverse
/// `(count * (total * SCALE)) / total` reduces to plain `count * SCALE`.
pub proof fn lemma_inverse_matches_proportional_form(count: int, total: int)
    requires
        0 <= count,
        1 <= total,
    ensures
        (count * (total * SCALE as int)) / total == count * (SCALE as int),
{
    let k = SCALE as int;
    assert(count * (total * k) == total * (count * k)) by (nonlinear_arith);
    lemma_div_multiples_vanish(count * k, total);
}

/// Round-trip law: converting a deposit to shares and back never
/// overstates the original deposit; the truncation always favors the pool.
/// The conversion rate does not depend on the pool's supply cap, and the
/// second clause ties the round trip to the proportional form over that
/// cap.
pub proof fn lemma_round_trip_favors_pool(pool: Pool, deposit: u64)
    requires
        pool.wf(),
    ensures
        deposit_of_shares(shares_of_deposit(deposit as int)) <= deposit as int,
        0 <= deposit_of_shares(shares_of_deposit(deposit as int)),
        (deposit as int * pool.shares as int) / (pool.shares as int * SCALE as int)
            == shares_of_deposit(deposit as int),
{
    let k = SCALE as int;
    let d = deposit as int;
    lemma_fundamental_div_mod(d, k);
    lemma_mod_bound(d, k);
    lemma_div_pos_is_pos(d, k);
    lemma_mul_is_commutative(d / k, k);
    lemma_mul_nonnegative(d / k, k);
    lemma_conversion_matches_proportional_form(d, pool.shares as int);
}

} // verus!
