//! Distribution lifecycle: funding, claiming against the unclaimed
//! liability, and the counter methods that preserve `claimed <= rewards`.

use octo_program::address::Address;
use octo_program::distribution::Distribution;
use octo_program::errors::ErrorCode;
use octo_program::instructions::{claim_rewards, distribute};
use octo_program::pool::Pool;

fn addr(n: u8) -> Address {
    Address::new(n as u128, n as u128 + 1)
}

fn pool_with(closed: bool) -> Pool {
    Pool {
        creator: addr(1),
        authority: addr(2),
        reference: addr(3),
        mint: addr(4),
        shares: 10,
        minted: 10,
        closed,
        bump: 7,
        start_date: 1_700_000_000,
        maturity_date: 1_800_000_000,
        apy: 12,
    }
}

fn distribution_for(pool: &Pool, rewards: u64, claimed: u64) -> Distribution {
    Distribution {
        pool: pool.reference,
        authority: addr(9),
        rewards,
        claimed,
        bump: 8,
    }
}

#[test]
fn distribute_accumulates_rewards() {
    let pool = pool_with(true);
    let mut d = distribution_for(&pool, 0, 0);
    let authority = d.authority;
    assert_eq!(distribute(&pool, &mut d, &authority, 300), Ok(()));
    assert_eq!(d.rewards, 300);
    assert_eq!(distribute(&pool, &mut d, &authority, 200), Ok(()));
    assert_eq!(d.rewards, 500);
    assert_eq!(d.claimed, 0);
}

#[test]
fn distribute_rejects_open_pool() {
    let pool = pool_with(false);
    let mut d = distribution_for(&pool, 0, 0);
    let authority = d.authority;
    assert_eq!(distribute(&pool, &mut d, &authority, 300), Err(ErrorCode::PoolClosed));
    assert_eq!(d.rewards, 0);
}

#[test]
fn distribute_rejects_a_stranger() {
    let pool = pool_with(true);
    let mut d = distribution_for(&pool, 0, 0);
    let stranger = addr(50);
    assert_eq!(distribute(&pool, &mut d, &stranger, 300), Err(ErrorCode::SignerNotAuthorized));
    assert_eq!(d.rewards, 0);
}

#[test]
fn claim_accumulates_up_to_the_funded_rewards() {
    let pool = pool_with(true);
    let mut d = distribution_for(&pool, 500, 0);
    let authority = d.authority;
    assert_eq!(claim_rewards(&pool, &mut d, &authority, 200, 500), Ok(()));
    assert_eq!(d.claimed, 200);
    assert_eq!(claim_rewards(&pool, &mut d, &authority, 300, 300), Ok(()));
    assert_eq!(d.claimed, 500);
    assert_eq!(d.rewards, 500);
}

#[test]
fn claim_rejects_an_exhausted_distribution() {
    let pool = pool_with(true);
    let mut d = distribution_for(&pool, 500, 500);
    let authority = d.authority;
    assert_eq!(
        claim_rewards(&pool, &mut d, &authority, 1, 1_000),
        Err(ErrorCode::InsufficientDistributionUSDCBalance)
    );
    assert_eq!(d.claimed, 500);
}

#[test]
fn claim_rejects_more_than_the_unclaimed_liability() {
    let pool = pool_with(true);
    let mut d = distribution_for(&pool, 500, 400);
    let authority = d.authority;
    assert_eq!(
        claim_rewards(&pool, &mut d, &authority, 101, 1_000),
        Err(ErrorCode::InsufficientDistributionUSDCBalance)
    );
    assert_eq!(d.claimed, 400);
}

#[test]
fn claim_rejects_a_balance_below_the_liability() {
    let pool = pool_with(true);
    let mut d = distribution_for(&pool, 500, 0);
    let authority = d.authority;
    assert_eq!(
        claim_rewards(&pool, &mut d, &authority, 100, 499),
        Err(ErrorCode::InsufficientDistributionUSDCBalance)
    );
    assert_eq!(d.claimed, 0);
}

#[test]
fn claim_rejects_a_balance_below_the_request() {
    let pool = pool_with(true);
    let mut d = distribution_for(&pool, 100, 0);
    let authority = d.authority;
    assert_eq!(
        claim_rewards(&pool, &mut d, &authority, 200, 100),
        Err(ErrorCode::InsufficientDistributionUSDCBalance)
    );
    assert_eq!(d.claimed, 0);
}

#[test]
fn claim_rejects_a_stranger() {
    let pool = pool_with(true);
    let mut d = distribution_for(&pool, 500, 0);
    let stranger = addr(50);
    assert_eq!(
        claim_rewards(&pool, &mut d, &stranger, 100, 500),
        Err(ErrorCode::SignerNotAuthorized)
    );
    assert_eq!(d.claimed, 0);
}

#[test]
fn distribution_counter_methods() {
    let pool = pool_with(true);
    let mut d = distribution_for(&pool, 0, 0);
    d.set(addr(21), addr(22), 3).expect("set always succeeds");
    assert_eq!(d.pool, addr(21));
    assert_eq!(d.authority, addr(22));
    d.set_authority(addr(23));
    assert_eq!(d.authority, addr(23));
    d.add_rewards(400);
    assert_eq!(d.rewards, 400);
    d.add_claimed(150);
    assert_eq!(d.claimed, 150);
    d.sub_claimed(50);
    assert_eq!(d.claimed, 100);
    d.sub_rewards(300);
    assert_eq!(d.rewards, 100);
    assert!(d.claimed <= d.rewards);
}
