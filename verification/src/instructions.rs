//! The instruction layer: one verified function per ledger operation.
//!
//! Each function performs the validation and the counter updates of one
//! operation of the vehicle, in the order the operation prescribes, and
//! returns the asset amount the paired transfer must move.  The transfer
//! itself, the derivation of account addresses, and signature checking are
//! the environment's work: the unverified shell performs them, executes
//! each operation as one atomic unit, and hands these functions the plain
//! values they need (balances, signer addresses).  Every function states
//! exactly which error it returns for which inputs, and every error leaves
//! the ledgers unchanged.

use vstd::prelude::*;

use crate::address::Address;
use crate::distribution::Distribution;
use crate::errors::ErrorCode;
use crate::pool::{shares_of_deposit, Pool, MIN_DEPOSIT, SCALE};

verus! {

/// Opens a fundraising pool and mints the creator's initial allotment.
///
/// Requirements, each with its error: the supply cap is at least 1
/// (`MinimumShares`); the deposit reaches the creation minimum and is a
/// whole multiple of the minimum deposit unit (`MinimumDeposit`); the
/// shares the deposit buys fit under the supply cap
/// (`ExceedsAvailableShares`).  On success the new pool has exactly the
/// deposit's worth of shares minted, all to the creator, and the returned
/// count is what the share-token mint must issue; the deposit itself is
/// the amount the paired transfer moves into the pool.
pub fn create_pool(
    creator: Address,
    authority: Address,
    reference: Address,
    mint: Address,
    shares: u64,
    deposit: u64,
    start_date: u64,
    maturity_date: u64,
    bump: u8,
    apy: u8,
) -> (r: Result<(Pool, u64), ErrorCode>)
    ensures
        r is Ok <==> 1 <= shares && MIN_DEPOSIT <= deposit && deposit % SCALE == 0
            && shares_of_deposit(deposit as int) <= shares,
        shares < 1 ==> r == Err::<(Pool, u64), ErrorCode>(ErrorCode::MinimumShares),
        1 <= shares && (deposit < MIN_DEPOSIT || deposit % SCALE != 0) ==> r == Err::<
            (Pool, u64),
            ErrorCode,
        >(ErrorCode::MinimumDeposit),
        1 <= shares && MIN_DEPOSIT <= deposit && deposit % SCALE == 0
            && shares_of_deposit(deposit as int) > shares ==> r == Err::<(Pool, u64), ErrorCode>(
            ErrorCode::ExceedsAvailableShares,
        ),
        r is Ok ==> r == Ok::<(Pool, u64), ErrorCode>(
            (
                Pool {
                    creator,
                    authority,
                    reference,
                    mint,
                    shares,
                    minted: shares_of_deposit(deposit as int) as u64,
                    closed: false,
                    bump,
                    start_date,
                    maturity_date,
                    apy,
                },
                shares_of_deposit(deposit as int) as u64,
            ),
        ),
        r matches Ok(p) ==> p.0.wf(),
{
    if shares < 1 {
        return Err(ErrorCode::MinimumShares);
    }
    // The environment hands over a fresh record for the new pool; `init`
    // fills it.
    let mut pool = Pool {
        creator,
        authority,
        reference,
        mint,
        shares,
        minted: 0,
        closed: false,
        bump,
        start_date,
        maturity_date,
        apy,
    };
    match pool.init(
        creator,
        authority,
        reference,
        mint,
        shares,
        start_date,
        maturity_date,
        bump,
        apy,
    ) {
        Ok(()) => {},
        Err(e) => {
            return Err(e);
        },
    }
    let minted: u64 = pool.get_shares_from_deposit(deposit);
    if deposit < MIN_DEPOSIT {
        return Err(ErrorCode::MinimumDeposit);
    }
    if !pool.is_valid_deposit(deposit) {
        return Err(ErrorCode::MinimumDeposit);
    }
    if !(minted <= pool.shares - pool.minted) {
        return Err(ErrorCode::ExceedsAvailableShares);
    }
    pool.add_minted(minted);
    Ok((pool, minted))
}

/// What one share purchase does to a pool's ledger: the state after the
/// call, and the deposit owed (or the rejection).  `buy_shares` returns
/// exactly this.
pub open spec fn spec_buy_shares(p: Pool, share_count: u64) -> (Pool, Result<u64, ErrorCode>) {
    if p.closed {
        (p, Err(ErrorCode::PoolClosed))
    } else if p.minted + share_count > p.shares {
        (p, Err(ErrorCode::ExceedsAvailableShares))
    } else {
        (
            Pool { minted: (p.minted + share_count) as u64, ..p },
            Ok((share_count * SCALE) as u64),
        )
    }
}

/// Mints further shares against an open pool's supply cap.
///
/// A purchase against a closed pool is rejected with `PoolClosed`, and one
/// that would push `minted` past `shares` with `ExceedsAvailableShares`;
/// either way the pool is unchanged.  On success `minted` grows by exactly
/// the purchased count and the returned deposit, always a whole multiple
/// of the minimum deposit unit, is the amount the paired transfer moves
/// into the pool.
pub fn buy_shares(pool: &mut Pool, share_count: u64) -> (r: Result<u64, ErrorCode>)
    requires
        old(pool).wf(),
        share_count * SCALE <= u64::MAX,
    ensures
        final(pool).wf(),
        r is Ok <==> !old(pool).closed && old(pool).minted + share_count <= old(pool).shares,
        old(pool).closed ==> r == Err::<u64, ErrorCode>(ErrorCode::PoolClosed) && *final(pool)
            == *old(pool),
        !old(pool).closed && old(pool).minted + share_count > old(pool).shares ==> r == Err::<
            u64,
            ErrorCode,
        >(ErrorCode::ExceedsAvailableShares) && *final(pool) == *old(pool),
        r is Ok ==> r == Ok::<u64, ErrorCode>((share_count * SCALE) as u64) && *final(pool)
            == (Pool { minted: (old(pool).minted + share_count) as u64, ..*old(pool) }),
        *final(pool) == spec_buy_shares(*old(pool), share_count).0,
        r == spec_buy_shares(*old(pool), share_count).1,
{
    if pool.closed {
        return Err(ErrorCode::PoolClosed);
    }
    let deposit: u64 = pool.get_deposit_from_shares(share_count);
    // The price of a whole share count is always a whole multiple of the
    // minimum unit, so this gate, kept for the prescribed validation
    // order, never fires.
    if !pool.is_valid_deposit(deposit) {
        return Err(ErrorCode::MinimumDeposit);
    }
    if !(share_count <= pool.shares - pool.minted) {
        return Err(ErrorCode::ExceedsAvailableShares);
    }
    pool.add_minted(share_count);
    Ok(deposit)
}

/// Funds a closed pool's distribution with further rewards.
///
/// Only the distribution's authority may fund it (`SignerNotAuthorized`),
/// and only once the owning pool is closed (`PoolClosed`); either
/// rejection leaves the distribution unchanged.  On success `rewards`
/// grows by exactly the funded amount, which the paired transfer moves
/// into the distribution's held balance first.
pub fn distribute(
    pool: &Pool,
    distribution: &mut Distribution,
    signer: &Address,
    amount: u64,
) -> (r: Result<(), ErrorCode>)
    requires
        pool.wf(),
        old(distribution).wf(),
        old(distribution).pool == pool.reference,
        old(distribution).rewards + amount <= u64::MAX,
    ensures
        final(distribution).wf(),
        r is Ok <==> *signer == old(distribution).authority && pool.closed,
        *signer != old(distribution).authority ==> r == Err::<(), ErrorCode>(
            ErrorCode::SignerNotAuthorized,
        ) && *final(distribution) == *old(distribution),
        *signer == old(distribution).authority && !pool.closed ==> r == Err::<(), ErrorCode>(
            ErrorCode::PoolClosed,
        ) && *final(distribution) == *old(distribution),
        r is Ok ==> r == Ok::<(), ErrorCode>(()) && *final(distribution) == (Distribution {
            rewards: (old(distribution).rewards + amount) as u64,
            ..*old(distribution)
        }),
{
    if !(*signer == distribution.authority) {
        return Err(ErrorCode::SignerNotAuthorized);
    }
    if !pool.closed {
        return Err(ErrorCode::PoolClosed);
    }
    distribution.add_rewards(amount);
    Ok(())
}

/// What one claim does to a distribution's ledger: the state after the
/// call, and the outcome.  `claim_rewards` returns exactly this.
pub open spec fn spec_claim_rewards(
    d: Distribution,
    authority: Address,
    requested: u64,
    balance: u64,
) -> (Distribution, Result<(), ErrorCode>) {
    if authority != d.authority {
        (d, Err(ErrorCode::SignerNotAuthorized))
    } else if d.rewards - d.claimed > balance || requested > balance || requested > d.rewards
        - d.claimed {
        (d, Err(ErrorCode::InsufficientDistributionUSDCBalance))
    } else {
        (Distribution { claimed: (d.claimed + requested) as u64, ..d }, Ok(()))
    }
}

/// Pays a reward claim out of a distribution.
///
/// Only the distribution's authority may authorize a claim
/// (`SignerNotAuthorized`).  The claim is rejected with
/// `InsufficientDistributionUSDCBalance` when the held balance does not
/// cover the unclaimed liability `rewards - claimed`, when it does not
/// cover the requested amount, or when the request exceeds the unclaimed
/// liability itself; every rejection leaves the distribution unchanged.
/// On success `claimed` grows by exactly the requested amount, which the
/// paired transfer pays out to the holder.
pub fn claim_rewards(
    pool: &Pool,
    distribution: &mut Distribution,
    authority: &Address,
    requested: u64,
    distribution_balance: u64,
) -> (r: Result<(), ErrorCode>)
    requires
        pool.wf(),
        old(distribution).wf(),
        old(distribution).pool == pool.reference,
    ensures
        final(distribution).wf(),
        r is Ok <==> *authority == old(distribution).authority && old(distribution).rewards
            - old(distribution).claimed <= distribution_balance && requested
            <= distribution_balance && requested <= old(distribution).rewards - old(
            distribution,
        ).claimed,
        *authority != old(distribution).authority ==> r == Err::<(), ErrorCode>(
            ErrorCode::SignerNotAuthorized,
        ) && *final(distribution) == *old(distribution),
        *authority == old(distribution).authority && (old(distribution).rewards - old(
            distribution,
        ).claimed > distribution_balance || requested > distribution_balance || requested > old(
            distribution,
        ).rewards - old(distribution).claimed) ==> r == Err::<(), ErrorCode>(
            ErrorCode::InsufficientDistributionUSDCBalance,
        ) && *final(distribution) == *old(distribution),
        r is Ok ==> r == Ok::<(), ErrorCode>(()) && *final(distribution) == (Distribution {
            claimed: (old(distribution).claimed + requested) as u64,
            ..*old(distribution)
        }),
        *final(distribution) == spec_claim_rewards(
            *old(distribution),
            *authority,
            requested,
            distribution_balance,
        ).0,
        r == spec_claim_rewards(*old(distribution), *authority, requested, distribution_balance).1,
{
    if !(*authority == distribution.authority) {
        return Err(ErrorCode::SignerNotAuthorized);
    }
    let unclaimed: u64 = distribution.rewards - distribution.claimed;
    if distribution_balance < unclaimed {
        return Err(ErrorCode::InsufficientDistributionUSDCBalance);
    }
    if distribution_balance < requested {
        return Err(ErrorCode::InsufficientDistributionUSDCBalance);
    }
    if unclaimed < requested {
        return Err(ErrorCode::InsufficientDistributionUSDCBalance);
    }
    distribution.add_claimed(requested);
    Ok(())
}

/// Lets the pool authority sweep raised capital out of the pool.
///
/// Only the pool's authority may withdraw (`SignerNotAuthorized`), only
/// while the pool is open (`PoolClosed`), and only up to the pool's held
/// balance (`InsufficientPoolUSDCBalance`).  On success the returned
/// amount, the deposit value of the given share count, is what the paired
/// transfer moves out.  Withdrawal deliberately leaves `minted` untouched:
/// capital custody is decoupled from share accounting.
pub fn withdraw_from_pool(
    pool: &Pool,
    signer: &Address,
    share_count: u64,
    pool_balance: u64,
) -> (r: Result<u64, ErrorCode>)
    requires
        pool.wf(),
        share_count * SCALE <= u64::MAX,
    ensures
        r is Ok <==> *signer == pool.authority && !pool.closed && share_count * SCALE
            <= pool_balance,
        *signer != pool.authority ==> r == Err::<u64, ErrorCode>(ErrorCode::SignerNotAuthorized),
        *signer == pool.authority && pool.closed ==> r == Err::<u64, ErrorCode>(
            ErrorCode::PoolClosed,
        ),
        *signer == pool.authority && !pool.closed && share_count * SCALE > pool_balance ==> r
            == Err::<u64, ErrorCode>(ErrorCode::InsufficientPoolUSDCBalance),
        r is Ok ==> r == Ok::<u64, ErrorCode>((share_count * SCALE) as u64),
{
    if !(*signer == pool.authority) {
        return Err(ErrorCode::SignerNotAuthorized);
    }
    if pool.closed {
        return Err(ErrorCode::PoolClosed);
    }
    let amount: u64 = pool.get_deposit_from_shares(share_count);
    if pool_balance < amount {
        return Err(ErrorCode::InsufficientPoolUSDCBalance);
    }
    Ok(amount)
}

/// What closing does to a pool's ledger: the state after the call, and the
/// fresh distribution (or the rejection).  `close_pool` returns exactly
/// this.
pub open spec fn spec_close_pool(
    p: Pool,
    signer: Address,
    distribution_authority: Address,
    distribution_bump: u8,
) -> (Pool, Result<Distribution, ErrorCode>) {
    if signer != p.authority {
        (p, Err(ErrorCode::SignerNotAuthorized))
    } else if p.closed {
        (p, Err(ErrorCode::PoolClosed))
    } else {
        (
            Pool { closed: true, ..p },
            Ok(
                Distribution {
                    pool: p.reference,
                    authority: distribution_authority,
                    rewards: 0,
                    claimed: 0,
                    bump: distribution_bump,
                },
            ),
        )
    }
}

/// Closes the pool, freezing issuance, and opens its reward distribution.
///
/// Only the pool's authority may close it (`SignerNotAuthorized`), and
/// only once: closing an already-closed pool is rejected with `PoolClosed`
/// and leaves it unchanged.  On success the pool's lifecycle flag flips,
/// nothing else about it changes, and the returned distribution starts
/// with no rewards and no claims, referring back to this pool.
pub fn close_pool(
    pool: &mut Pool,
    signer: &Address,
    distribution_authority: Address,
    distribution_bump: u8,
) -> (r: Result<Distribution, ErrorCode>)
    requires
        old(pool).wf(),
    ensures
        final(pool).wf(),
        r is Ok <==> *signer == old(pool).authority && !old(pool).closed,
        *signer != old(pool).authority ==> r == Err::<Distribution, ErrorCode>(
            ErrorCode::SignerNotAuthorized,
        ) && *final(pool) == *old(pool),
        *signer == old(pool).authority && old(pool).closed ==> r == Err::<Distribution, ErrorCode>(
            ErrorCode::PoolClosed,
        ) && *final(pool) == *old(pool),
        r is Ok ==> r == Ok::<Distribution, ErrorCode>(
            Distribution {
                pool: old(pool).reference,
                authority: distribution_authority,
                rewards: 0,
                claimed: 0,
                bump: distribution_bump,
            },
        ) && *final(pool) == (Pool { closed: true, ..*old(pool) }),
        *final(pool) == spec_close_pool(
            *old(pool),
            *signer,
            distribution_authority,
            distribution_bump,
        ).0,
        r == spec_close_pool(*old(pool), *signer, distribution_authority, distribution_bump).1,
{
    if !(*signer == pool.authority) {
        return Err(ErrorCode::SignerNotAuthorized);
    }
    if pool.closed {
        return Err(ErrorCode::PoolClosed);
    }
    // The environment hands over a zero-filled record for the new
    // distribution; `set` fills in its identity.
    let mut distribution = Distribution {
        pool: pool.reference,
        authority: distribution_authority,
        rewards: 0,
        claimed: 0,
        bump: distribution_bump,
    };
    match distribution.set(pool.reference, distribution_authority, distribution_bump) {
        Ok(()) => {},
        Err(e) => {
            return Err(e);
        },
    }
    pool.closed = true;
    Ok(distribution)
}

/// Retires both ledgers once nothing is owed and nothing is held.
///
/// Only the pool's authority may retire them (`SignerNotAuthorized`), the
/// pool must already be closed (`PoolNotClosed`), every funded reward must
/// have been claimed (`UnclaimedDistributionRewards`), and both held
/// balances must be zero (`NonZeroPoolUSDCBalance`,
/// `NonZeroDistributionUSDCBalance`).  On success both ledgers are
/// consumed — they no longer exist, so retirement cannot happen twice —
/// and the environment reclaims their storage; on rejection both are
/// handed back untouched.
pub fn close_pool_accounts(
    pool: Pool,
    distribution: Distribution,
    signer: &Address,
    pool_balance: u64,
    distribution_balance: u64,
) -> (r: Result<(), (Pool, Distribution, ErrorCode)>)
    requires
        pool.wf(),
        distribution.wf(),
        distribution.pool == pool.reference,
    ensures
        r is Ok <==> *signer == pool.authority && pool.closed && distribution.rewards
            == distribution.claimed && pool_balance == 0 && distribution_balance == 0,
        *signer != pool.authority ==> r == Err::<(), (Pool, Distribution, ErrorCode)>(
            (pool, distribution, ErrorCode::SignerNotAuthorized),
        ),
        *signer == pool.authority && !pool.closed ==> r == Err::<
            (),
            (Pool, Distribution, ErrorCode),
        >((pool, distribution, ErrorCode::PoolNotClosed)),
        *signer == pool.authority && pool.closed && distribution.rewards != distribution.claimed
            ==> r == Err::<(), (Pool, Distribution, ErrorCode)>(
            (pool, distribution, ErrorCode::UnclaimedDistributionRewards),
        ),
        *signer == pool.authority && pool.closed && distribution.rewards == distribution.claimed
            && pool_balance != 0 ==> r == Err::<(), (Pool, Distribution, ErrorCode)>(
            (pool, distribution, ErrorCode::NonZeroPoolUSDCBalance),
        ),
        *signer == pool.authority && pool.closed && distribution.rewards == distribution.claimed
            && pool_balance == 0 && distribution_balance != 0 ==> r == Err::<
            (),
            (Pool, Distribution, ErrorCode),
        >((pool, distribution, ErrorCode::NonZeroDistributionUSDCBalance)),
{
    if !(*signer == pool.authority) {
        return Err((pool, distribution, ErrorCode::SignerNotAuthorized));
    }
    if !pool.closed {
        return Err((pool, distribution, ErrorCode::PoolNotClosed));
    }
    if distribution.rewards != distribution.claimed {
        return Err((pool, distribution, ErrorCode::UnclaimedDistributionRewards));
    }
    if pool_balance != 0 {
        return Err((pool, distribution, ErrorCode::NonZeroPoolUSDCBalance));
    }
    if distribution_balance != 0 {
        return Err((pool, distribution, ErrorCode::NonZeroDistributionUSDCBalance));
    }
    Ok(())
}

} // verus!
