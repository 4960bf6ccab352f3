//! What the pool's authority may do: pause and resume the pool, set its fee,
//! hand it over, and set how it guards against the price feeds.

use vstd::prelude::*;
use crate::constants::MAX_BPS;
use crate::errors::AmmError;
use crate::host::{Pubkey, TokenInstruction};
use crate::instructions::add_liquidity::{
    add_liquidity_constraint_error, add_liquidity_spec, AddLiquidity,
};
use crate::instructions::flash_loan::{flash_loan_account_error, flash_loan_spec, FlashLoan};
use crate::instructions::remove_liquidity::{
    remove_liquidity_constraint_error, remove_liquidity_spec, RemoveLiquidity,
};
use crate::instructions::swap::{swap_constraint_error, swap_spec, Swap};
use crate::state::pool::{valid_fee, Pool};

verus! {

/// What pausing works on.
#[derive(Clone, Copy, Debug, PartialEq, Eq, Structural)]
pub struct PausePool {
    pub pool: Pool,
    /// Who asks.
    pub authority: Pubkey,
}

/// What resuming works on.
#[derive(Clone, Copy, Debug, PartialEq, Eq, Structural)]
pub struct UnpausePool {
    pub pool: Pool,
    /// Who asks.
    pub authority: Pubkey,
}

/// What a change of fee works on.
#[derive(Clone, Copy, Debug, PartialEq, Eq, Structural)]
pub struct UpdateFees {
    pub pool: Pool,
    /// Who asks.
    pub authority: Pubkey,
}

/// What a handover works on.
#[derive(Clone, Copy, Debug, PartialEq, Eq, Structural)]
pub struct TransferAuthority {
    pub pool: Pool,
    /// Who asks.
    pub authority: Pubkey,
    /// Who is to administer the pool from now on.
    pub new_authority: Pubkey,
}

/// What a change of the feed settings works on.
#[derive(Clone, Copy, Debug, PartialEq, Eq, Structural)]
pub struct UpdateOracleConfig {
    pub pool: Pool,
    /// Who asks.
    pub authority: Pubkey,
}

/// Pauses the pool. Only the pool's authority may, and only a pool that is
/// not paused already.
pub fn pause_pool_handler(ctx: &mut PausePool) -> (r: Result<(), AmmError>)
    ensures
        old(ctx).pool.authority != old(ctx).authority ==> r == Err::<(), AmmError>(
            AmmError::Unauthorized,
        ),
        old(ctx).pool.authority == old(ctx).authority && old(ctx).pool.is_paused ==> r == Err::<
            (),
            AmmError,
        >(AmmError::PoolPaused),
        old(ctx).pool.authority == old(ctx).authority && !old(ctx).pool.is_paused ==> r is Ok,
        r is Ok ==> *final(ctx) == (PausePool {
            pool: Pool { is_paused: true, ..old(ctx).pool },
            ..*old(ctx)
        }),
        r is Err ==> *final(ctx) == *old(ctx),
{
    if ctx.pool.authority != ctx.authority {
        return Err(AmmError::Unauthorized);
    }
    if ctx.pool.is_paused {
        return Err(AmmError::PoolPaused);
    }
    ctx.pool.is_paused = true;
    Ok(())
}

/// Resumes the pool. Only the pool's authority may, and only a pool that is
/// paused.
pub fn unpause_pool_handler(ctx: &mut UnpausePool) -> (r: Result<(), AmmError>)
    ensures
        old(ctx).pool.authority != old(ctx).authority ==> r == Err::<(), AmmError>(
            AmmError::Unauthorized,
        ),
        old(ctx).pool.authority == old(ctx).authority && !old(ctx).pool.is_paused ==> r == Err::<
            (),
            AmmError,
        >(AmmError::InvalidPoolConfig),
        old(ctx).pool.authority == old(ctx).authority && old(ctx).pool.is_paused ==> r is Ok,
        r is Ok ==> *final(ctx) == (UnpausePool {
            pool: Pool { is_paused: false, ..old(ctx).pool },
            ..*old(ctx)
        }),
        r is Err ==> *final(ctx) == *old(ctx),
{
    if ctx.pool.authority != ctx.authority {
        return Err(AmmError::Unauthorized);
    }
    if !ctx.pool.is_paused {
        return Err(AmmError::InvalidPoolConfig);
    }
    ctx.pool.is_paused = false;
    Ok(())
}

/// Sets the swap fee. Only the pool's authority may; the fee must be a
/// proper fraction of at most a tenth.
pub fn update_fees_handler(ctx: &mut UpdateFees, new_fee_numerator: u64, new_fee_denominator: u64)
    -> (r: Result<(), AmmError>)
    ensures
        old(ctx).pool.authority != old(ctx).authority ==> r == Err::<(), AmmError>(
            AmmError::Unauthorized,
        ),
        old(ctx).pool.authority == old(ctx).authority && !valid_fee(
            new_fee_numerator,
            new_fee_denominator,
        ) ==> r == Err::<(), AmmError>(AmmError::InvalidFeeParameters),
        old(ctx).pool.authority == old(ctx).authority && valid_fee(
            new_fee_numerator,
            new_fee_denominator,
        ) ==> r is Ok,
        r is Ok ==> *final(ctx) == (UpdateFees {
            pool: Pool {
                fee_numerator: new_fee_numerator,
                fee_denominator: new_fee_denominator,
                ..old(ctx).pool
            },
            ..*old(ctx)
        }),
        r is Err ==> *final(ctx) == *old(ctx),
        r is Ok && old(ctx).pool.wf() ==> final(ctx).pool.wf(),
{
    if ctx.pool.authority != ctx.authority {
        return Err(AmmError::Unauthorized);
    }
    if new_fee_denominator == 0 || new_fee_numerator >= new_fee_denominator {
        return Err(AmmError::InvalidFeeParameters);
    }
    if new_fee_numerator > new_fee_denominator / 10 {
        return Err(AmmError::InvalidFeeParameters);
    }
    ctx.pool.fee_numerator = new_fee_numerator;
    ctx.pool.fee_denominator = new_fee_denominator;
    Ok(())
}

/// Hands the pool over to `new_authority`. Only the pool's authority may.
pub fn transfer_authority_handler(ctx: &mut TransferAuthority) -> (r: Result<(), AmmError>)
    ensures
        old(ctx).pool.authority != old(ctx).authority ==> r == Err::<(), AmmError>(
            AmmError::Unauthorized,
        ) && *final(ctx) == *old(ctx),
        old(ctx).pool.authority == old(ctx).authority ==> r is Ok && *final(ctx) == (
        TransferAuthority {
            pool: Pool { authority: old(ctx).new_authority, ..old(ctx).pool },
            ..*old(ctx)
        }),
{
    if ctx.pool.authority != ctx.authority {
        return Err(AmmError::Unauthorized);
    }
    ctx.pool.authority = ctx.new_authority;
    Ok(())
}

/// The feed settings asked for are acceptable: an age, where given, is
/// positive, and a deviation, where given, is at most 100%.
pub open spec fn valid_oracle_config(new_max_age: Option<i64>, new_max_deviation_bps: Option<u64>)
    -> bool {
    &&& new_max_age is Some ==> new_max_age->Some_0 > 0
    &&& new_max_deviation_bps is Some ==> new_max_deviation_bps->Some_0 <= MAX_BPS
}

/// Sets the largest feed age, the largest tolerated deviation, or both; a
/// setting that is not given stays. Only the pool's authority may.
pub fn update_oracle_config_handler(
    ctx: &mut UpdateOracleConfig,
    new_max_age: Option<i64>,
    new_max_deviation_bps: Option<u64>,
) -> (r: Result<(), AmmError>)
    ensures
        old(ctx).pool.authority != old(ctx).authority ==> r == Err::<(), AmmError>(
            AmmError::Unauthorized,
        ),
        old(ctx).pool.authority == old(ctx).authority && !valid_oracle_config(
            new_max_age,
            new_max_deviation_bps,
        ) ==> r == Err::<(), AmmError>(AmmError::InvalidOracle),
        old(ctx).pool.authority == old(ctx).authority && valid_oracle_config(
            new_max_age,
            new_max_deviation_bps,
        ) ==> r is Ok,
        r is Ok ==> *final(ctx) == (UpdateOracleConfig {
            pool: Pool {
                oracle_max_age: if new_max_age is Some {
                    new_max_age->Some_0
                } else {
                    old(ctx).pool.oracle_max_age
                },
                oracle_max_deviation_bps: if new_max_deviation_bps is Some {
                    new_max_deviation_bps->Some_0
                } else {
                    old(ctx).pool.oracle_max_deviation_bps
                },
                ..old(ctx).pool
            },
            ..*old(ctx)
        }),
        r is Err ==> *final(ctx) == *old(ctx),
{
    if ctx.pool.authority != ctx.authority {
        return Err(AmmError::Unauthorized);
    }
    let mut pool: Pool = ctx.pool;
    match new_max_age {
        Some(max_age) => {
            if max_age <= 0 {
                return Err(AmmError::InvalidOracle);
            }
            pool.oracle_max_age = max_age;
        },
        None => {},
    }
    match new_max_deviation_bps {
        Some(max_deviation) => {
            if max_deviation > MAX_BPS {
                return Err(AmmError::InvalidOracle);
            }
            pool.oracle_max_deviation_bps = max_deviation;
        },
        None => {},
    }
    ctx.pool = pool;
    Ok(())
}

/// A paused pool rejects every operation that moves its reserves: a swap,
/// a deposit, a withdrawal and a loan on a paused pool are rejected whatever
/// they ask for, and with `PoolPaused` where their accounts fit. A rejected
/// operation requests no transfer and changes no record.
pub proof fn lemma_paused_pool_rejects(
    swap: Swap,
    amount_in: u64,
    minimum_amount_out: u64,
    is_a_to_b: bool,
    deposit: AddLiquidity,
    amount_a: u64,
    amount_b: u64,
    min_liquidity: u64,
    withdrawal: RemoveLiquidity,
    liquidity_amount: u64,
    min_amount_a: u64,
    min_amount_b: u64,
    loan: FlashLoan,
    loan_a: u64,
    loan_b: u64,
)
    ensures
        swap.pool.is_paused ==> swap_spec(swap, amount_in, minimum_amount_out, is_a_to_b) is Err,
        swap.pool.is_paused && swap_constraint_error(swap) is None ==> swap_spec(
            swap,
            amount_in,
            minimum_amount_out,
            is_a_to_b,
        ) == Err::<(Swap, Seq<TokenInstruction>), AmmError>(AmmError::PoolPaused),
        deposit.pool.is_paused ==> add_liquidity_spec(deposit, amount_a, amount_b, min_liquidity)
            is Err,
        deposit.pool.is_paused && add_liquidity_constraint_error(deposit) is None
            ==> add_liquidity_spec(deposit, amount_a, amount_b, min_liquidity) == Err::<
            (AddLiquidity, Seq<TokenInstruction>),
            AmmError,
        >(AmmError::PoolPaused),
        withdrawal.pool.is_paused ==> remove_liquidity_spec(
            withdrawal,
            liquidity_amount,
            min_amount_a,
            min_amount_b,
        ) is Err,
        withdrawal.pool.is_paused && remove_liquidity_constraint_error(withdrawal) is None
            ==> remove_liquidity_spec(withdrawal, liquidity_amount, min_amount_a, min_amount_b)
            == Err::<(RemoveLiquidity, Seq<TokenInstruction>), AmmError>(AmmError::PoolPaused),
        loan.pool.is_paused ==> flash_loan_spec(loan, loan_a, loan_b) is Err,
        loan.pool.is_paused && flash_loan_account_error(
            loan.pool,
            loan.borrower,
            loan.borrower_token_a,
            loan.borrower_token_b,
            loan.token_a_vault,
            loan.token_b_vault,
        ) is None ==> flash_loan_spec(loan, loan_a, loan_b) == Err::<
            (FlashLoan, Seq<TokenInstruction>),
            AmmError,
        >(AmmError::PoolPaused),
{
}

} // verus!
