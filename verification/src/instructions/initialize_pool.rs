//! Creation of a pool.

use vstd::prelude::*;
use crate::constants::MAX_BPS;
use crate::errors::AmmError;
use crate::host::{Clock, Pubkey};
use crate::state::pool::{valid_fee, Pool};

verus! {

/// What the creation of a pool works on.
#[derive(Clone, Copy, Debug, PartialEq, Eq, Structural)]
pub struct InitializePool {
    /// The record to fill.
    pub pool: Pool,
    /// Address derivation seed of the pool.
    pub pool_bump: u8,
    /// Who creates the pool and administers it from then on.
    pub authority: Pubkey,
    pub token_a_mint: Pubkey,
    pub token_b_mint: Pubkey,
    pub lp_mint: Pubkey,
    pub token_a_vault: Pubkey,
    pub token_b_vault: Pubkey,
    pub oracle_a: Pubkey,
    pub oracle_b: Pubkey,
    pub clock: Clock,
}

/// Why the parameters of a new pool are refused, if they are: the fee must
/// be a proper fraction of at most a tenth, the feed age positive, the
/// tolerated deviation at most 100%, and the two assets distinct.
pub open spec fn initialize_pool_error(
    ctx: InitializePool,
    fee_numerator: u64,
    fee_denominator: u64,
    oracle_max_age: i64,
    oracle_max_deviation_bps: u64,
) -> Option<AmmError> {
    if !valid_fee(fee_numerator, fee_denominator) {
        Some(AmmError::InvalidFeeParameters)
    } else if oracle_max_age <= 0 || oracle_max_deviation_bps > MAX_BPS {
        Some(AmmError::InvalidOracle)
    } else if ctx.token_a_mint == ctx.token_b_mint {
        Some(AmmError::InvalidPoolConfig)
    } else {
        None
    }
}

/// The pool as it is created: empty, unpaused, its accumulators at zero and
/// its clock at the time of creation.
pub open spec fn initial_pool(
    ctx: InitializePool,
    fee_numerator: u64,
    fee_denominator: u64,
    oracle_max_age: i64,
    oracle_max_deviation_bps: u64,
) -> Pool {
    Pool {
        authority: ctx.authority,
        token_a_mint: ctx.token_a_mint,
        token_b_mint: ctx.token_b_mint,
        token_a_vault: ctx.token_a_vault,
        token_b_vault: ctx.token_b_vault,
        lp_mint: ctx.lp_mint,
        reserve_a: 0,
        reserve_b: 0,
        total_lp_supply: 0,
        fee_numerator,
        fee_denominator,
        oracle_a: ctx.oracle_a,
        oracle_b: ctx.oracle_b,
        oracle_max_age,
        oracle_max_deviation_bps,
        is_paused: false,
        cumulative_price_a: 0,
        cumulative_price_b: 0,
        last_update_timestamp: ctx.clock.unix_timestamp,
        total_volume_a: 0,
        total_volume_b: 0,
        total_fees_a: 0,
        total_fees_b: 0,
        bump: ctx.pool_bump,
    }
}

/// Creates the pool with the given fee and feed settings. The pool that
/// results is well-formed; a creation that is rejected changes nothing.
pub fn handler(
    ctx: &mut InitializePool,
    fee_numerator: u64,
    fee_denominator: u64,
    oracle_max_age: i64,
    oracle_max_deviation_bps: u64,
) -> (r: Result<(), AmmError>)
    ensures
        match initialize_pool_error(
            *old(ctx),
            fee_numerator,
            fee_denominator,
            oracle_max_age,
            oracle_max_deviation_bps,
        ) {
            Some(e) => r == Err::<(), AmmError>(e) && *final(ctx) == *old(ctx),
            None => r is Ok && *final(ctx) == (InitializePool {
                pool: initial_pool(
                    *old(ctx),
                    fee_numerator,
                    fee_denominator,
                    oracle_max_age,
                    oracle_max_deviation_bps,
                ),
                ..*old(ctx)
            }),
        },
        r is Ok ==> final(ctx).pool.wf(),
{
    if fee_denominator == 0 || fee_numerator >= fee_denominator {
        return Err(AmmError::InvalidFeeParameters);
    }
    if fee_numerator > fee_denominator / 10 {
        return Err(AmmError::InvalidFeeParameters);
    }
    if oracle_max_age <= 0 || oracle_max_deviation_bps > MAX_BPS {
        return Err(AmmError::InvalidOracle);
    }
    if ctx.token_a_mint == ctx.token_b_mint {
        return Err(AmmError::InvalidPoolConfig);
    }
    ctx.pool = Pool {
        authority: ctx.authority,
        token_a_mint: ctx.token_a_mint,
        token_b_mint: ctx.token_b_mint,
        token_a_vault: ctx.token_a_vault,
        token_b_vault: ctx.token_b_vault,
        lp_mint: ctx.lp_mint,
        reserve_a: 0,
        reserve_b: 0,
        total_lp_supply: 0,
        fee_numerator,
        fee_denominator,
        oracle_a: ctx.oracle_a,
        oracle_b: ctx.oracle_b,
        oracle_max_age,
        oracle_max_deviation_bps,
        is_paused: false,
        cumulative_price_a: 0,
        cumulative_price_b: 0,
        last_update_timestamp: ctx.clock.unix_timestamp,
        total_volume_a: 0,
        total_volume_b: 0,
        total_fees_a: 0,
        total_fees_b: 0,
        bump: ctx.pool_bump,
    };
    Ok(())
}

} // verus!
