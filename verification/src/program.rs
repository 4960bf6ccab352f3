//! The operation surface: one entry point for each operation that a caller
//! can drive. Each hands its accounts and arguments to the operation's
//! handler and answers as the handler does.

use vstd::prelude::*;
use crate::errors::AmmError;
use crate::host::TokenInstruction;
use crate::instructions::add_liquidity::{add_liquidity_spec, AddLiquidity};
use crate::instructions::admin::{
    valid_oracle_config, PausePool, TransferAuthority, UnpausePool, UpdateFees, UpdateOracleConfig,
};
use crate::instructions::farming::{
    claim_rewards_spec, initial_farm, stake_spec, unstake_spec, valid_farm, ClaimRewards,
    InitializeFarm, Stake, Unstake,
};
use crate::instructions::flash_loan::{
    flash_loan_repay_spec, flash_loan_spec, FlashLoan, FlashLoanRepay,
};
use crate::instructions::initialize_pool::{initial_pool, initialize_pool_error, InitializePool};
use crate::instructions::multi_hop::{multi_hop_spec, MultiHopSwap};
use crate::instructions::remove_liquidity::{remove_liquidity_spec, RemoveLiquidity};
use crate::instructions::swap::{swap_spec, Swap};
use crate::state::pool::{valid_fee, Pool};

verus! {

/// Initialize a new liquidity pool.
pub fn initialize_pool(
    ctx: &mut InitializePool,
    fee_numerator: u64,
    fee_denominator: u64,
    oracle_max_age: i64,
    oracle_max_deviation_bps: u64,
) -> (r: Result<(), AmmError>)
    ensures
        match initialize_pool_error(
            *old(ctx),
            fee_numerator,
            fee_denominator,
            oracle_max_age,
            oracle_max_deviation_bps,
        ) {
            Some(e) => r == Err::<(), AmmError>(e) && *final(ctx) == *old(ctx),
            None => r is Ok && *final(ctx) == (InitializePool {
                pool: initial_pool(
                    *old(ctx),
                    fee_numerator,
                    fee_denominator,
                    oracle_max_age,
                    oracle_max_deviation_bps,
                ),
                ..*old(ctx)
            }),
        },
        r is Ok ==> final(ctx).pool.wf(),
{
    crate::instructions::initialize_pool::handler(
        ctx,
        fee_numerator,
        fee_denominator,
        oracle_max_age,
        oracle_max_deviation_bps,
    )
}

/// Add liquidity to a pool.
pub fn add_liquidity(ctx: &mut AddLiquidity, amount_a: u64, amount_b: u64, min_liquidity: u64) -> (r:
    Result<Vec<TokenInstruction>, AmmError>)
    ensures
        r is Ok ==> add_liquidity_spec(*old(ctx), amount_a, amount_b, min_liquidity) == Ok::<
            (AddLiquidity, Seq<TokenInstruction>),
            AmmError,
        >((*final(ctx), r->Ok_0@)),
        r is Err ==> add_liquidity_spec(*old(ctx), amount_a, amount_b, min_liquidity) == Err::<
            (AddLiquidity, Seq<TokenInstruction>),
            AmmError,
        >(r->Err_0) && *final(ctx) == *old(ctx),
        old(ctx).pool.is_paused ==> r is Err,
        r is Ok && old(ctx).pool.wf() ==> final(ctx).pool.wf(),
{
    crate::instructions::add_liquidity::handler(ctx, amount_a, amount_b, min_liquidity)
}

/// Remove liquidity from a pool.
pub fn remove_liquidity(
    ctx: &mut RemoveLiquidity,
    liquidity_amount: u64,
    min_amount_a: u64,
    min_amount_b: u64,
) -> (r: Result<Vec<TokenInstruction>, AmmError>)
    ensures
        r is Ok ==> remove_liquidity_spec(*old(ctx), liquidity_amount, min_amount_a, min_amount_b)
            == Ok::<(RemoveLiquidity, Seq<TokenInstruction>), AmmError>((*final(ctx), r->Ok_0@)),
        r is Err ==> remove_liquidity_spec(*old(ctx), liquidity_amount, min_amount_a, min_amount_b)
            == Err::<(RemoveLiquidity, Seq<TokenInstruction>), AmmError>(r->Err_0) && *final(ctx)
            == *old(ctx),
        old(ctx).pool.is_paused ==> r is Err,
        r is Ok && old(ctx).pool.wf() ==> final(ctx).pool.wf(),
{
    crate::instructions::remove_liquidity::handler(
        ctx,
        liquidity_amount,
        min_amount_a,
        min_amount_b,
    )
}

/// Swap tokens, held against the price feeds.
pub fn swap(ctx: &mut Swap, amount_in: u64, minimum_amount_out: u64, is_a_to_b: bool) -> (r: Result<
    Vec<TokenInstruction>,
    AmmError,
>)
    ensures
        r is Ok ==> swap_spec(*old(ctx), amount_in, minimum_amount_out, is_a_to_b) == Ok::<
            (Swap, Seq<TokenInstruction>),
            AmmError,
        >((*final(ctx), r->Ok_0@)),
        r is Err ==> swap_spec(*old(ctx), amount_in, minimum_amount_out, is_a_to_b) == Err::<
            (Swap, Seq<TokenInstruction>),
            AmmError,
        >(r->Err_0) && *final(ctx) == *old(ctx),
        old(ctx).pool.is_paused ==> r is Err,
        r is Ok ==> final(ctx).pool.reserve_a * final(ctx).pool.reserve_b >= old(
            ctx,
        ).pool.reserve_a * old(ctx).pool.reserve_b,
        r is Ok && old(ctx).pool.wf() ==> final(ctx).pool.wf(),
{
    crate::instructions::swap::handler(ctx, amount_in, minimum_amount_out, is_a_to_b)
}

/// Open a flash loan.
pub fn flash_loan(ctx: &mut FlashLoan, amount_a: u64, amount_b: u64) -> (r: Result<
    Vec<TokenInstruction>,
    AmmError,
>)
    ensures
        r is Ok ==> flash_loan_spec(*old(ctx), amount_a, amount_b) == Ok::<
            (FlashLoan, Seq<TokenInstruction>),
            AmmError,
        >((*final(ctx), r->Ok_0@)),
        r is Err ==> flash_loan_spec(*old(ctx), amount_a, amount_b) == Err::<
            (FlashLoan, Seq<TokenInstruction>),
            AmmError,
        >(r->Err_0) && *final(ctx) == *old(ctx),
        old(ctx).pool.is_paused ==> r is Err,
        r is Ok ==> final(ctx).flash_loan_record.wf(),
{
    crate::instructions::flash_loan::handler(ctx, amount_a, amount_b)
}

/// Repay a flash loan, in the batch that opened it.
pub fn flash_loan_repay(ctx: &mut FlashLoanRepay) -> (r: Result<Vec<TokenInstruction>, AmmError>)
    ensures
        r is Ok ==> flash_loan_repay_spec(*old(ctx)) == Ok::<
            (FlashLoanRepay, Seq<TokenInstruction>),
            AmmError,
        >((*final(ctx), r->Ok_0@)),
        r is Err ==> flash_loan_repay_spec(*old(ctx)) == Err::<
            (FlashLoanRepay, Seq<TokenInstruction>),
            AmmError,
        >(r->Err_0) && *final(ctx) == *old(ctx),
        old(ctx).clock.slot != old(ctx).flash_loan_record.initiated_slot ==> r is Err,
{
    crate::instructions::flash_loan::repay_handler(ctx)
}

/// Open a farm on the shares of a pool.
pub fn initialize_farm(
    ctx: &mut InitializeFarm,
    reward_per_slot: u64,
    start_slot: u64,
    end_slot: u64,
) -> (r: Result<(), AmmError>)
    ensures
        old(ctx).lp_mint == old(ctx).pool.lp_mint && valid_farm(
            old(ctx).clock.slot,
            reward_per_slot,
            start_slot,
            end_slot,
        ) ==> r is Ok && *final(ctx) == (InitializeFarm {
            farming_pool: initial_farm(*old(ctx), reward_per_slot, start_slot, end_slot),
            ..*old(ctx)
        }),
        !(old(ctx).lp_mint == old(ctx).pool.lp_mint && valid_farm(
            old(ctx).clock.slot,
            reward_per_slot,
            start_slot,
            end_slot,
        )) ==> r == Err::<(), AmmError>(AmmError::InvalidPoolConfig) && *final(ctx) == *old(ctx),
{
    crate::instructions::farming::initialize_farm_handler(
        ctx,
        reward_per_slot,
        start_slot,
        end_slot,
    )
}

/// Stake shares to earn rewards.
pub fn stake(ctx: &mut Stake, amount: u64) -> (r: Result<Vec<TokenInstruction>, AmmError>)
    ensures
        r is Ok ==> stake_spec(*old(ctx), amount) == Ok::<(Stake, Seq<TokenInstruction>), AmmError>(
            (*final(ctx), r->Ok_0@),
        ),
        r is Err ==> stake_spec(*old(ctx), amount) == Err::<
            (Stake, Seq<TokenInstruction>),
            AmmError,
        >(r->Err_0) && *final(ctx) == *old(ctx),
        r is Ok ==> final(ctx).user_stake.settled(
            final(ctx).farming_pool.accumulated_reward_per_share,
        ),
{
    crate::instructions::farming::stake_handler(ctx, amount)
}

/// Take shares out of a stake.
pub fn unstake(ctx: &mut Unstake, amount: u64) -> (r: Result<Vec<TokenInstruction>, AmmError>)
    ensures
        r is Ok ==> unstake_spec(*old(ctx), amount) == Ok::<
            (Unstake, Seq<TokenInstruction>),
            AmmError,
        >((*final(ctx), r->Ok_0@)),
        r is Err ==> unstake_spec(*old(ctx), amount) == Err::<
            (Unstake, Seq<TokenInstruction>),
            AmmError,
        >(r->Err_0) && *final(ctx) == *old(ctx),
        r is Ok ==> final(ctx).user_stake.settled(
            final(ctx).farming_pool.accumulated_reward_per_share,
        ),
{
    crate::instructions::farming::unstake_handler(ctx, amount)
}

/// Claim what a stake has earned.
pub fn claim_rewards(ctx: &mut ClaimRewards) -> (r: Result<Vec<TokenInstruction>, AmmError>)
    ensures
        r is Ok ==> claim_rewards_spec(*old(ctx)) == Ok::<
            (ClaimRewards, Seq<TokenInstruction>),
            AmmError,
        >((*final(ctx), r->Ok_0@)),
        r is Err ==> claim_rewards_spec(*old(ctx)) == Err::<
            (ClaimRewards, Seq<TokenInstruction>),
            AmmError,
        >(r->Err_0) && *final(ctx) == *old(ctx),
        r is Ok ==> final(ctx).user_stake.settled(
            final(ctx).farming_pool.accumulated_reward_per_share,
        ),
{
    crate::instructions::farming::claim_rewards_handler(ctx)
}

/// Swap through up to three pools.
pub fn multi_hop_swap(ctx: &mut MultiHopSwap, amount_in: u64, minimum_amount_out: u64, hops: u8)
    -> (r: Result<(u64, Vec<TokenInstruction>), AmmError>)
    ensures
        r is Ok ==> multi_hop_spec(*old(ctx), amount_in, minimum_amount_out, hops) == Ok::<
            (MultiHopSwap, u64, Seq<TokenInstruction>),
            AmmError,
        >((*final(ctx), r->Ok_0.0, r->Ok_0.1@)),
        r is Err ==> multi_hop_spec(*old(ctx), amount_in, minimum_amount_out, hops) == Err::<
            (MultiHopSwap, u64, Seq<TokenInstruction>),
            AmmError,
        >(r->Err_0) && *final(ctx) == *old(ctx),
        r is Ok ==> r->Ok_0.0 >= minimum_amount_out,
        old(ctx).pool_1.is_paused ==> r is Err,
{
    crate::instructions::multi_hop::handler(ctx, amount_in, minimum_amount_out, hops)
}

/// Pause a pool; only its authority may.
pub fn pause_pool(ctx: &mut PausePool) -> (r: Result<(), AmmError>)
    ensures
        old(ctx).pool.authority != old(ctx).authority ==> r == Err::<(), AmmError>(
            AmmError::Unauthorized,
        ),
        old(ctx).pool.authority == old(ctx).authority && old(ctx).pool.is_paused ==> r == Err::<
            (),
            AmmError,
        >(AmmError::PoolPaused),
        old(ctx).pool.authority == old(ctx).authority && !old(ctx).pool.is_paused ==> r is Ok,
        r is Ok ==> *final(ctx) == (PausePool {
            pool: Pool { is_paused: true, ..old(ctx).pool },
            ..*old(ctx)
        }),
        r is Err ==> *final(ctx) == *old(ctx),
{
    crate::instructions::admin::pause_pool_handler(ctx)
}

/// Resume a pool; only its authority may.
pub fn unpause_pool(ctx: &mut UnpausePool) -> (r: Result<(), AmmError>)
    ensures
        old(ctx).pool.authority != old(ctx).authority ==> r == Err::<(), AmmError>(
            AmmError::Unauthorized,
        ),
        old(ctx).pool.authority == old(ctx).authority && !old(ctx).pool.is_paused ==> r == Err::<
            (),
            AmmError,
        >(AmmError::InvalidPoolConfig),
        old(ctx).pool.authority == old(ctx).authority && old(ctx).pool.is_paused ==> r is Ok,
        r is Ok ==> *final(ctx) == (UnpausePool {
            pool: Pool { is_paused: false, ..old(ctx).pool },
            ..*old(ctx)
        }),
        r is Err ==> *final(ctx) == *old(ctx),
{
    crate::instructions::admin::unpause_pool_handler(ctx)
}

/// Set the swap fee of a pool; only its authority may.
pub fn update_fees(ctx: &mut UpdateFees, new_fee_numerator: u64, new_fee_denominator: u64) -> (r:
    Result<(), AmmError>)
    ensures
        old(ctx).pool.authority != old(ctx).authority ==> r == Err::<(), AmmError>(
            AmmError::Unauthorized,
        ),
        old(ctx).pool.authority == old(ctx).authority && !valid_fee(
            new_fee_numerator,
            new_fee_denominator,
        ) ==> r == Err::<(), AmmError>(AmmError::InvalidFeeParameters),
        old(ctx).pool.authority == old(ctx).authority && valid_fee(
            new_fee_numerator,
            new_fee_denominator,
        ) ==> r is Ok,
        r is Ok ==> *final(ctx) == (UpdateFees {
            pool: Pool {
                fee_numerator: new_fee_numerator,
                fee_denominator: new_fee_denominator,
                ..old(ctx).pool
            },
            ..*old(ctx)
        }),
        r is Err ==> *final(ctx) == *old(ctx),
{
    crate::instructions::admin::update_fees_handler(ctx, new_fee_numerator, new_fee_denominator)
}

/// Hand a pool over; only its authority may.
pub fn transfer_authority(ctx: &mut TransferAuthority) -> (r: Result<(), AmmError>)
    ensures
        old(ctx).pool.authority != old(ctx).authority ==> r == Err::<(), AmmError>(
            AmmError::Unauthorized,
        ) && *final(ctx) == *old(ctx),
        old(ctx).pool.authority == old(ctx).authority ==> r is Ok && *final(ctx) == (
        TransferAuthority {
            pool: Pool { authority: old(ctx).new_authority, ..old(ctx).pool },
            ..*old(ctx)
        }),
{
    crate::instructions::admin::transfer_authority_handler(ctx)
}

/// Set how a pool guards against its price feeds; only its authority may.
pub fn update_oracle_config(
    ctx: &mut UpdateOracleConfig,
    new_max_age: Option<i64>,
    new_max_deviation_bps: Option<u64>,
) -> (r: Result<(), AmmError>)
    ensures
        old(ctx).pool.authority != old(ctx).authority ==> r == Err::<(), AmmError>(
            AmmError::Unauthorized,
        ),
        old(ctx).pool.authority == old(ctx).authority && !valid_oracle_config(
            new_max_age,
            new_max_deviation_bps,
        ) ==> r == Err::<(), AmmError>(AmmError::InvalidOracle),
        old(ctx).pool.authority == old(ctx).authority && valid_oracle_config(
            new_max_age,
            new_max_deviation_bps,
        ) ==> r is Ok,
        r is Ok ==> *final(ctx) == (UpdateOracleConfig {
            pool: Pool {
                oracle_max_age: if new_max_age is Some {
                    new_max_age->Some_0
                } else {
                    old(ctx).pool.oracle_max_age
                },
                oracle_max_deviation_bps: if new_max_deviation_bps is Some {
                    new_max_deviation_bps->Some_0
                } else {
                    old(ctx).pool.oracle_max_deviation_bps
                },
                ..old(ctx).pool
            },
            ..*old(ctx)
        }),
        r is Err ==> *final(ctx) == *old(ctx),
{
    crate::instructions::admin::update_oracle_config_handler(
        ctx,
        new_max_age,
        new_max_deviation_bps,
    )
}

} // verus!
