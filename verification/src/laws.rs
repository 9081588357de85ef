//! The laws of the two ledgers, stated over the transition functions that
//! the instruction contracts are tied to.
//!
//! Each proof function here is a statement the library makes about every
//! reachable state, not just about one call: the issuance invariant holds
//! under any sequence of purchases, the claim invariant holds under any
//! claim, and the close transition is one-way.  The round-trip law of the
//! deposit/share conversion lives beside the conversion itself, in
//! `pool::lemma_round_trip_favors_pool`.

use vstd::prelude::*;

use crate::address::Address;
use crate::distribution::Distribution;
use crate::errors::ErrorCode;
use crate::instructions::{spec_buy_shares, spec_claim_rewards, spec_close_pool};
use crate::pool::Pool;

verus! {

/// A share purchase preserves `0 <= minted <= shares`, and a purchase that
/// would exceed the cap — or reach a closed pool — is rejected with the
/// pool left exactly as it was.
pub proof fn lemma_purchase_preserves_issuance_invariant(p: Pool, share_count: u64)
    requires
        p.wf(),
    ensures
        spec_buy_shares(p, share_count).0.wf(),
        p.minted + share_count > p.shares ==> spec_buy_shares(p, share_count).0 == p
            && spec_buy_shares(p, share_count).1 is Err,
        p.closed ==> spec_buy_shares(p, share_count).0 == p && spec_buy_shares(
            p,
            share_count,
        ).1 == Err::<u64, ErrorCode>(ErrorCode::PoolClosed),
{
}

/// The pool state after any sequence of share purchases, each applied as
/// `buy_shares` applies it (rejected purchases leave the state unchanged).
pub open spec fn pool_after_purchases(p: Pool, requests: Seq<u64>) -> Pool
    decreases requests.len(),
{
    if requests.len() == 0 {
        p
    } else {
        pool_after_purchases(
            spec_buy_shares(p, requests[0]).0,
            requests.subrange(1, requests.len() as int),
        )
    }
}

/// Under any sequence of purchase requests — however many, in whatever
/// order, and whatever their sizes — issuance never exceeds the supply
/// cap: every observed state satisfies `0 <= minted <= shares`.
pub proof fn lemma_no_sequence_of_purchases_exceeds_the_cap(p: Pool, requests: Seq<u64>)
    requires
        p.wf(),
    ensures
        pool_after_purchases(p, requests).wf(),
        pool_after_purchases(p, requests).minted <= p.shares,
        pool_after_purchases(p, requests).shares == p.shares,
    decreases requests.len(),
{
    if requests.len() != 0 {
        lemma_purchase_preserves_issuance_invariant(p, requests[0]);
        lemma_no_sequence_of_purchases_exceeds_the_cap(
            spec_buy_shares(p, requests[0]).0,
            requests.subrange(1, requests.len() as int),
        );
    }
}

/// A claim preserves `0 <= claimed <= rewards`, and a claim that exceeds
/// the unclaimed liability `rewards - claimed` is rejected with the
/// distribution left exactly as it was.
pub proof fn lemma_claim_preserves_claimed_invariant(
    d: Distribution,
    authority: Address,
    requested: u64,
    balance: u64,
)
    requires
        d.wf(),
    ensures
        spec_claim_rewards(d, authority, requested, balance).0.wf(),
        requested > d.rewards - d.claimed ==> spec_claim_rewards(
            d,
            authority,
            requested,
            balance,
        ).0 == d && spec_claim_rewards(d, authority, requested, balance).1 is Err,
        spec_claim_rewards(d, authority, requested, balance).1 is Err ==> spec_claim_rewards(
            d,
            authority,
            requested,
            balance,
        ).0 == d,
{
}

/// Closing is one-way and idempotence-safe: a successful close yields a
/// closed pool, and closing that pool again — by anyone — is rejected with
/// `PoolClosed` and changes nothing.
pub proof fn lemma_close_is_one_way(
    p: Pool,
    signer: Address,
    again: Address,
    distribution_authority: Address,
    distribution_bump: u8,
)
    requires
        p.wf(),
    ensures
        spec_close_pool(p, signer, distribution_authority, distribution_bump).1 is Ok ==> {
            let once = spec_close_pool(p, signer, distribution_authority, distribution_bump).0;
            &&& once.closed
            &&& spec_close_pool(once, again, distribution_authority, distribution_bump).0 == once
            &&& again == once.authority ==> spec_close_pool(
                once,
                again,
                distribution_authority,
                distribution_bump,
            ).1 == Err::<Distribution, ErrorCode>(ErrorCode::PoolClosed)
        },
        p.closed ==> spec_close_pool(p, signer, distribution_authority, distribution_bump).0 == p
            && spec_close_pool(p, signer, distribution_authority, distribution_bump).1 is Err,
{
}

} // verus!
