//! Staking of pool shares: opening a farm, staking, unstaking and claiming.
//!
//! Every operation on a stake first accrues the farm's rewards up to the
//! present slot, pays what the stake has earned, and then sets the stake's
//! debt to match its new size. None of them asks whether the pool is paused.

use vstd::prelude::*;
use crate::constants::{MAX_FARMING_DURATION, MIN_FARMING_DURATION};
use crate::errors::AmmError;
use crate::host::{Clock, Pubkey, TokenAccount, TokenInstruction};
use crate::instructions::flash_loan::transfer_if_any;
use crate::state::farming::{
    pending_rewards_spec, reward_debt_spec, rewards_updated, FarmingPool, UserStake,
};
use crate::state::pool::Pool;

verus! {

/// What the opening of a farm works on.
#[derive(Clone, Copy, Debug, PartialEq, Eq, Structural)]
pub struct InitializeFarm {
    pub pool: Pool,
    /// Address of the pool.
    pub pool_key: Pubkey,
    /// The record to fill.
    pub farming_pool: FarmingPool,
    /// Address derivation seed of the farm.
    pub farming_pool_bump: u8,
    /// Who opens the farm and administers it from then on.
    pub authority: Pubkey,
    pub lp_mint: Pubkey,
    pub reward_mint: Pubkey,
    pub reward_vault: Pubkey,
    pub clock: Clock,
}

/// What staking works on.
#[derive(Clone, Copy, Debug, PartialEq, Eq, Structural)]
pub struct Stake {
    pub pool: Pool,
    pub farming_pool: FarmingPool,
    /// Address of the farm.
    pub farming_pool_key: Pubkey,
    /// The staker's position; the zeroed record where it is new.
    pub user_stake: UserStake,
    /// Address derivation seed of the position.
    pub user_stake_bump: u8,
    /// Who stakes.
    pub user: Pubkey,
    /// The staker's account of shares.
    pub user_lp_token: TokenAccount,
    /// The farm's account of staked shares.
    pub lp_token_vault: TokenAccount,
    /// The farm's account of rewards.
    pub reward_vault: TokenAccount,
    /// The staker's account of rewards.
    pub user_reward_token: TokenAccount,
    pub clock: Clock,
}

/// What unstaking works on.
#[derive(Clone, Copy, Debug, PartialEq, Eq, Structural)]
pub struct Unstake {
    pub pool: Pool,
    pub farming_pool: FarmingPool,
    pub user_stake: UserStake,
    /// Who unstakes.
    pub user: Pubkey,
    /// The staker's account of shares.
    pub user_lp_token: TokenAccount,
    /// The farm's account of staked shares.
    pub lp_token_vault: TokenAccount,
    /// The farm's account of rewards.
    pub reward_vault: TokenAccount,
    /// The staker's account of rewards.
    pub user_reward_token: TokenAccount,
    pub clock: Clock,
}

/// What a claim works on.
#[derive(Clone, Copy, Debug, PartialEq, Eq, Structural)]
pub struct ClaimRewards {
    pub pool: Pool,
    pub farming_pool: FarmingPool,
    pub user_stake: UserStake,
    /// Who claims.
    pub user: Pubkey,
    /// The farm's account of rewards.
    pub reward_vault: TokenAccount,
    /// The staker's account of rewards.
    pub user_reward_token: TokenAccount,
    pub clock: Clock,
}

/// The parameters of a farm are acceptable: a positive reward, a start that
/// is not in the past, and a window of the permitted length.
pub open spec fn valid_farm(current_slot: u64, reward_per_slot: u64, start_slot: u64, end_slot: u64)
    -> bool {
    &&& reward_per_slot > 0
    &&& start_slot >= current_slot
    &&& end_slot > start_slot
    &&& MIN_FARMING_DURATION <= end_slot - start_slot <= MAX_FARMING_DURATION
}

/// The farm as it is opened: active, nothing staked, accrued up to its start.
pub open spec fn initial_farm(
    ctx: InitializeFarm,
    reward_per_slot: u64,
    start_slot: u64,
    end_slot: u64,
) -> FarmingPool {
    FarmingPool {
        authority: ctx.authority,
        pool: ctx.pool_key,
        lp_mint: ctx.lp_mint,
        reward_mint: ctx.reward_mint,
        reward_vault: ctx.reward_vault,
        total_staked: 0,
        reward_per_slot,
        start_slot,
        end_slot,
        last_update_slot: start_slot,
        accumulated_reward_per_share: 0,
        total_rewards_distributed: 0,
        is_active: true,
        bump: ctx.farming_pool_bump,
    }
}

/// Opens a farm on the shares of a pool. A farm that is refused changes
/// nothing.
pub fn initialize_farm_handler(
    ctx: &mut InitializeFarm,
    reward_per_slot: u64,
    start_slot: u64,
    end_slot: u64,
) -> (r: Result<(), AmmError>)
    ensures
        old(ctx).lp_mint == old(ctx).pool.lp_mint && valid_farm(
            old(ctx).clock.slot,
            reward_per_slot,
            start_slot,
            end_slot,
        ) ==> r is Ok && *final(ctx) == (InitializeFarm {
            farming_pool: initial_farm(*old(ctx), reward_per_slot, start_slot, end_slot),
            ..*old(ctx)
        }),
        !(old(ctx).lp_mint == old(ctx).pool.lp_mint && valid_farm(
            old(ctx).clock.slot,
            reward_per_slot,
            start_slot,
            end_slot,
        )) ==> r == Err::<(), AmmError>(AmmError::InvalidPoolConfig) && *final(ctx) == *old(ctx),
{
    if ctx.lp_mint != ctx.pool.lp_mint {
        return Err(AmmError::InvalidPoolConfig);
    }
    if reward_per_slot == 0 || start_slot < ctx.clock.slot || end_slot <= start_slot {
        return Err(AmmError::InvalidPoolConfig);
    }
    let duration: u64 = end_slot - start_slot;
    if duration < MIN_FARMING_DURATION || duration > MAX_FARMING_DURATION {
        return Err(AmmError::InvalidPoolConfig);
    }
    ctx.farming_pool = FarmingPool {
        authority: ctx.authority,
        pool: ctx.pool_key,
        lp_mint: ctx.lp_mint,
        reward_mint: ctx.reward_mint,
        reward_vault: ctx.reward_vault,
        total_staked: 0,
        reward_per_slot,
        start_slot,
        end_slot,
        last_update_slot: start_slot,
        accumulated_reward_per_share: 0,
        total_rewards_distributed: 0,
        is_active: true,
        bump: ctx.farming_pool_bump,
    };
    Ok(())
}

/// The account checks that precede staking, in the order they are made.
pub open spec fn stake_constraint_error(ctx: Stake) -> Option<AmmError> {
    if !ctx.farming_pool.is_active {
        Some(AmmError::FarmingNotActive)
    } else if ctx.user_lp_token.mint != ctx.farming_pool.lp_mint {
        Some(AmmError::TokenMintMismatch)
    } else if ctx.user_lp_token.owner != ctx.user {
        Some(AmmError::InvalidAuthority)
    } else if ctx.lp_token_vault.mint != ctx.farming_pool.lp_mint {
        Some(AmmError::TokenMintMismatch)
    } else if ctx.reward_vault.key != ctx.farming_pool.reward_vault {
        Some(AmmError::InvalidPoolConfig)
    } else {
        None
    }
}

/// The stake as staking finds it: opened, where it holds nothing yet; paid
/// its pending rewards, where it holds something.
pub open spec fn stake_before_deposit(ctx: Stake, pending: u64) -> UserStake {
    if ctx.user_stake.staked_amount > 0 {
        UserStake {
            total_rewards_claimed: (ctx.user_stake.total_rewards_claimed + pending) as u64,
            ..ctx.user_stake
        }
    } else {
        UserStake {
            owner: ctx.user,
            farming_pool: ctx.farming_pool_key,
            created_at: ctx.clock.unix_timestamp,
            last_claim_slot: ctx.clock.slot,
            total_rewards_claimed: 0,
            bump: ctx.user_stake_bump,
            ..ctx.user_stake
        }
    }
}

/// What staking does: the accounts afterwards and the custody requests, or
/// the error with which it is rejected.
pub open spec fn stake_spec(ctx: Stake, amount: u64) -> Result<
    (Stake, Seq<TokenInstruction>),
    AmmError,
> {
    let accrued = rewards_updated(ctx.farming_pool, ctx.clock.slot);
    if stake_constraint_error(ctx) is Some {
        Err(stake_constraint_error(ctx)->Some_0)
    } else if ctx.clock.slot < ctx.farming_pool.start_slot {
        Err(AmmError::FarmingNotStarted)
    } else if ctx.clock.slot >= ctx.farming_pool.end_slot {
        Err(AmmError::FarmingEnded)
    } else if amount == 0 {
        Err(AmmError::ZeroAmount)
    } else if accrued is Err {
        Err(accrued->Err_0)
    } else {
        let farm = accrued->Ok_0;
        let earned = if ctx.user_stake.staked_amount > 0 {
            pending_rewards_spec(
                farm.accumulated_reward_per_share,
                ctx.user_stake.staked_amount,
                ctx.user_stake.reward_debt,
            )
        } else {
            Ok(0u64)
        };
        if earned is Err {
            Err(earned->Err_0)
        } else {
            let pending = earned->Ok_0;
            let staked = ctx.user_stake.staked_amount + amount;
            if ctx.user_stake.total_rewards_claimed + pending > u64::MAX || staked > u64::MAX
                || staked * farm.accumulated_reward_per_share > u128::MAX || farm.total_staked
                + amount > u64::MAX {
                Err(AmmError::MathOverflow)
            } else {
                Ok(
                    (
                        Stake {
                            farming_pool: FarmingPool {
                                total_staked: (farm.total_staked + amount) as u64,
                                ..farm
                            },
                            user_stake: UserStake {
                                staked_amount: staked as u64,
                                reward_debt: reward_debt_spec(
                                    staked as u64,
                                    farm.accumulated_reward_per_share,
                                ) as u128,
                                ..stake_before_deposit(ctx, pending)
                            },
                            ..ctx
                        },
                        transfer_if_any(ctx.reward_vault.key, ctx.user_reward_token.key, pending)
                            + seq![
                            TokenInstruction::Transfer {
                                from: ctx.user_lp_token.key,
                                to: ctx.lp_token_vault.key,
                                amount,
                            },
                        ],
                    ),
                )
            }
        }
    }
}

/// Stakes `amount` shares. A stake that holds shares already is first paid
/// what it has earned, in the reward asset and out of the farm's reward
/// vault; a new one is opened. Staking is open from the farm's start slot to
/// the slot before its end.
///
/// Afterwards the stake's debt matches its size at the farm's accumulator.
/// Staking that is rejected changes nothing.
pub fn stake_handler(ctx: &mut Stake, amount: u64) -> (r: Result<Vec<TokenInstruction>, AmmError>)
    ensures
        r is Ok ==> stake_spec(*old(ctx), amount) == Ok::<(Stake, Seq<TokenInstruction>), AmmError>(
            (*final(ctx), r->Ok_0@),
        ),
        r is Err ==> stake_spec(*old(ctx), amount) == Err::<
            (Stake, Seq<TokenInstruction>),
            AmmError,
        >(r->Err_0) && *final(ctx) == *old(ctx),
        r is Ok ==> final(ctx).user_stake.settled(
            final(ctx).farming_pool.accumulated_reward_per_share,
        ),
        final(ctx).farming_pool.accumulated_reward_per_share >= old(
            ctx,
        ).farming_pool.accumulated_reward_per_share,
{
    if !ctx.farming_pool.is_active {
        return Err(AmmError::FarmingNotActive);
    }
    if ctx.user_lp_token.mint != ctx.farming_pool.lp_mint {
        return Err(AmmError::TokenMintMismatch);
    }
    if ctx.user_lp_token.owner != ctx.user {
        return Err(AmmError::InvalidAuthority);
    }
    if ctx.lp_token_vault.mint != ctx.farming_pool.lp_mint {
        return Err(AmmError::TokenMintMismatch);
    }
    if ctx.reward_vault.key != ctx.farming_pool.reward_vault {
        return Err(AmmError::InvalidPoolConfig);
    }
    if ctx.clock.slot < ctx.farming_pool.start_slot {
        return Err(AmmError::FarmingNotStarted);
    }
    if ctx.clock.slot >= ctx.farming_pool.end_slot {
        return Err(AmmError::FarmingEnded);
    }
    if amount == 0 {
        return Err(AmmError::ZeroAmount);
    }
    let mut farm: FarmingPool = ctx.farming_pool;
    match farm.update_rewards(ctx.clock.slot) {
        Ok(()) => {},
        Err(e) => {
            return Err(e);
        },
    }
    let mut stake: UserStake = ctx.user_stake;
    let mut pending_rewards: u64 = 0;
    if stake.staked_amount > 0 {
        let earned = farm.calculate_pending_rewards(stake.staked_amount, stake.reward_debt);
        pending_rewards = match earned {
            Ok(v) => v,
            Err(e) => {
                return Err(e);
            },
        };
        let claimed = stake.total_rewards_claimed.checked_add(pending_rewards);
        stake.total_rewards_claimed = match claimed {
            Some(v) => v,
            None => {
                return Err(AmmError::MathOverflow);
            },
        };
    } else {
        stake.owner = ctx.user;
        stake.farming_pool = ctx.farming_pool_key;
        stake.created_at = ctx.clock.unix_timestamp;
        stake.last_claim_slot = ctx.clock.slot;
        stake.total_rewards_claimed = 0;
        stake.bump = ctx.user_stake_bump;
    }
    let staked: u64 = match stake.staked_amount.checked_add(amount) {
        Some(v) => v,
        None => {
            return Err(AmmError::MathOverflow);
        },
    };
    if (staked as u128).checked_mul(farm.accumulated_reward_per_share).is_none() {
        return Err(AmmError::MathOverflow);
    }
    let total_staked: u64 = match farm.total_staked.checked_add(amount) {
        Some(v) => v,
        None => {
            return Err(AmmError::MathOverflow);
        },
    };
    stake.staked_amount = staked;
    stake.update_reward_debt(farm.accumulated_reward_per_share);
    farm.total_staked = total_staked;
    let mut requests: Vec<TokenInstruction> = Vec::new();
    if pending_rewards > 0 {
        requests.push(
            TokenInstruction::Transfer {
                from: ctx.reward_vault.key,
                to: ctx.user_reward_token.key,
                amount: pending_rewards,
            },
        );
    }
    requests.push(
        TokenInstruction::Transfer {
            from: ctx.user_lp_token.key,
            to: ctx.lp_token_vault.key,
            amount,
        },
    );
    assert(requests@ =~= transfer_if_any(
        ctx.reward_vault.key,
        ctx.user_reward_token.key,
        pending_rewards,
    ) + seq![
        TokenInstruction::Transfer {
            from: ctx.user_lp_token.key,
            to: ctx.lp_token_vault.key,
            amount,
        },
    ]);
    ctx.farming_pool = farm;
    ctx.user_stake = stake;
    Ok(requests)
}

/// The account checks that precede unstaking, in the order they are made.
pub open spec fn unstake_constraint_error(ctx: Unstake) -> Option<AmmError> {
    if ctx.user_stake.owner != ctx.user {
        Some(AmmError::InvalidAuthority)
    } else if ctx.user_lp_token.mint != ctx.farming_pool.lp_mint {
        Some(AmmError::TokenMintMismatch)
    } else if ctx.user_lp_token.owner != ctx.user {
        Some(AmmError::InvalidAuthority)
    } else if ctx.lp_token_vault.mint != ctx.farming_pool.lp_mint {
        Some(AmmError::TokenMintMismatch)
    } else if ctx.reward_vault.key != ctx.farming_pool.reward_vault {
        Some(AmmError::InvalidPoolConfig)
    } else {
        None
    }
}

/// The stake after `pending` rewards have been paid at `slot`; a payment of
/// nothing leaves it as it is.
pub open spec fn stake_paid(stake: UserStake, pending: u64, slot: u64) -> UserStake {
    if pending > 0 {
        UserStake {
            total_rewards_claimed: (stake.total_rewards_claimed + pending) as u64,
            last_claim_slot: slot,
            ..stake
        }
    } else {
        stake
    }
}

/// What unstaking does: the accounts afterwards and the custody requests, or
/// the error with which it is rejected.
pub open spec fn unstake_spec(ctx: Unstake, amount: u64) -> Result<
    (Unstake, Seq<TokenInstruction>),
    AmmError,
> {
    let accrued = rewards_updated(ctx.farming_pool, ctx.clock.slot);
    if unstake_constraint_error(ctx) is Some {
        Err(unstake_constraint_error(ctx)->Some_0)
    } else if amount == 0 {
        Err(AmmError::ZeroAmount)
    } else if ctx.user_stake.staked_amount < amount {
        Err(AmmError::InsufficientStake)
    } else if accrued is Err {
        Err(accrued->Err_0)
    } else {
        let farm = accrued->Ok_0;
        let earned = pending_rewards_spec(
            farm.accumulated_reward_per_share,
            ctx.user_stake.staked_amount,
            ctx.user_stake.reward_debt,
        );
        if earned is Err {
            Err(earned->Err_0)
        } else {
            let pending = earned->Ok_0;
            let staked = (ctx.user_stake.staked_amount - amount) as u64;
            if ctx.user_stake.total_rewards_claimed + pending > u64::MAX || farm.total_staked
                < amount {
                Err(AmmError::MathOverflow)
            } else {
                Ok(
                    (
                        Unstake {
                            farming_pool: FarmingPool {
                                total_staked: (farm.total_staked - amount) as u64,
                                ..farm
                            },
                            user_stake: UserStake {
                                staked_amount: staked,
                                reward_debt: reward_debt_spec(
                                    staked,
                                    farm.accumulated_reward_per_share,
                                ) as u128,
                                ..stake_paid(ctx.user_stake, pending, ctx.clock.slot)
                            },
                            ..ctx
                        },
                        transfer_if_any(ctx.reward_vault.key, ctx.user_reward_token.key, pending)
                            + seq![
                            TokenInstruction::Transfer {
                                from: ctx.lp_token_vault.key,
                                to: ctx.user_lp_token.key,
                                amount,
                            },
                        ],
                    ),
                )
            }
        }
    }
}

/// Takes `amount` shares out of a stake, paying what the stake has earned.
/// It is open at any slot, whether or not the farm still runs.
///
/// Afterwards the stake's debt matches its size at the farm's accumulator.
/// Unstaking that is rejected changes nothing.
pub fn unstake_handler(ctx: &mut Unstake, amount: u64) -> (r: Result<
    Vec<TokenInstruction>,
    AmmError,
>)
    ensures
        r is Ok ==> unstake_spec(*old(ctx), amount) == Ok::<
            (Unstake, Seq<TokenInstruction>),
            AmmError,
        >((*final(ctx), r->Ok_0@)),
        r is Err ==> unstake_spec(*old(ctx), amount) == Err::<
            (Unstake, Seq<TokenInstruction>),
            AmmError,
        >(r->Err_0) && *final(ctx) == *old(ctx),
        r is Ok ==> final(ctx).user_stake.settled(
            final(ctx).farming_pool.accumulated_reward_per_share,
        ),
        final(ctx).farming_pool.accumulated_reward_per_share >= old(
            ctx,
        ).farming_pool.accumulated_reward_per_share,
{
    if ctx.user_stake.owner != ctx.user {
        return Err(AmmError::InvalidAuthority);
    }
    if ctx.user_lp_token.mint != ctx.farming_pool.lp_mint {
        return Err(AmmError::TokenMintMismatch);
    }
    if ctx.user_lp_token.owner != ctx.user {
        return Err(AmmError::InvalidAuthority);
    }
    if ctx.lp_token_vault.mint != ctx.farming_pool.lp_mint {
        return Err(AmmError::TokenMintMismatch);
    }
    if ctx.reward_vault.key != ctx.farming_pool.reward_vault {
        return Err(AmmError::InvalidPoolConfig);
    }
    if amount == 0 {
        return Err(AmmError::ZeroAmount);
    }
    if ctx.user_stake.staked_amount < amount {
        return Err(AmmError::InsufficientStake);
    }
    let mut farm: FarmingPool = ctx.farming_pool;
    match farm.update_rewards(ctx.clock.slot) {
        Ok(()) => {},
        Err(e) => {
            return Err(e);
        },
    }
    let mut stake: UserStake = ctx.user_stake;
    let pending_rewards: u64 = match farm.calculate_pending_rewards(
        stake.staked_amount,
        stake.reward_debt,
    ) {
        Ok(v) => v,
        Err(e) => {
            return Err(e);
        },
    };
    let claimed: u64 = match stake.total_rewards_claimed.checked_add(pending_rewards) {
        Some(v) => v,
        None => {
            return Err(AmmError::MathOverflow);
        },
    };
    if farm.total_staked < amount {
        return Err(AmmError::MathOverflow);
    }
    if pending_rewards > 0 {
        stake.total_rewards_claimed = claimed;
        stake.last_claim_slot = ctx.clock.slot;
    }
    proof {
        lemma_smaller_stake_fits(
            ctx.user_stake.staked_amount,
            amount,
            farm.accumulated_reward_per_share,
        );
    }
    stake.staked_amount = stake.staked_amount - amount;
    stake.update_reward_debt(farm.accumulated_reward_per_share);
    farm.total_staked = farm.total_staked - amount;
    let mut requests: Vec<TokenInstruction> = Vec::new();
    if pending_rewards > 0 {
        requests.push(
            TokenInstruction::Transfer {
                from: ctx.reward_vault.key,
                to: ctx.user_reward_token.key,
                amount: pending_rewards,
            },
        );
    }
    requests.push(
        TokenInstruction::Transfer {
            from: ctx.lp_token_vault.key,
            to: ctx.user_lp_token.key,
            amount,
        },
    );
    assert(requests@ =~= transfer_if_any(
        ctx.reward_vault.key,
        ctx.user_reward_token.key,
        pending_rewards,
    ) + seq![
        TokenInstruction::Transfer {
            from: ctx.lp_token_vault.key,
            to: ctx.user_lp_token.key,
            amount,
        },
    ]);
    ctx.farming_pool = farm;
    ctx.user_stake = stake;
    Ok(requests)
}

/// Where the accumulator times a stake fits in 128 bits, so does the
/// accumulator times a smaller stake.
proof fn lemma_smaller_stake_fits(staked: u64, amount: u64, accumulated: u128)
    requires
        amount <= staked,
        staked * accumulated <= u128::MAX,
    ensures
        (staked - amount) * accumulated <= u128::MAX,
{
    assert((staked - amount) * accumulated <= staked * accumulated) by (nonlinear_arith)
        requires
            0 <= amount <= staked,
            0 <= accumulated,
    ;
}

/// The account checks that precede a claim, in the order they are made.
pub open spec fn claim_constraint_error(ctx: ClaimRewards) -> Option<AmmError> {
    if ctx.user_stake.owner != ctx.user {
        Some(AmmError::InvalidAuthority)
    } else if ctx.reward_vault.key != ctx.farming_pool.reward_vault {
        Some(AmmError::InvalidPoolConfig)
    } else {
        None
    }
}

/// What a claim does: the accounts afterwards and the custody requests, or
/// the error with which it is rejected.
pub open spec fn claim_rewards_spec(ctx: ClaimRewards) -> Result<
    (ClaimRewards, Seq<TokenInstruction>),
    AmmError,
> {
    let accrued = rewards_updated(ctx.farming_pool, ctx.clock.slot);
    if claim_constraint_error(ctx) is Some {
        Err(claim_constraint_error(ctx)->Some_0)
    } else if accrued is Err {
        Err(accrued->Err_0)
    } else {
        let farm = accrued->Ok_0;
        let earned = pending_rewards_spec(
            farm.accumulated_reward_per_share,
            ctx.user_stake.staked_amount,
            ctx.user_stake.reward_debt,
        );
        if earned is Err {
            Err(earned->Err_0)
        } else if earned->Ok_0 == 0 {
            Err(AmmError::NoRewards)
        } else if ctx.user_stake.total_rewards_claimed + earned->Ok_0 > u64::MAX {
            Err(AmmError::MathOverflow)
        } else {
            Ok(
                (
                    ClaimRewards {
                        farming_pool: farm,
                        user_stake: UserStake {
                            reward_debt: reward_debt_spec(
                                ctx.user_stake.staked_amount,
                                farm.accumulated_reward_per_share,
                            ) as u128,
                            ..stake_paid(ctx.user_stake, earned->Ok_0, ctx.clock.slot)
                        },
                        ..ctx
                    },
                    seq![
                        TokenInstruction::Transfer {
                            from: ctx.reward_vault.key,
                            to: ctx.user_reward_token.key,
                            amount: earned->Ok_0,
                        },
                    ],
                ),
            )
        }
    }
}

/// Pays a stake what it has earned; `NoRewards` where that is nothing. It is
/// open at any slot, whether or not the farm still runs.
///
/// Afterwards the stake's debt matches its size at the farm's accumulator.
/// A claim that is rejected changes nothing.
pub fn claim_rewards_handler(ctx: &mut ClaimRewards) -> (r: Result<Vec<TokenInstruction>, AmmError>)
    ensures
        r is Ok ==> claim_rewards_spec(*old(ctx)) == Ok::<
            (ClaimRewards, Seq<TokenInstruction>),
            AmmError,
        >((*final(ctx), r->Ok_0@)),
        r is Err ==> claim_rewards_spec(*old(ctx)) == Err::<
            (ClaimRewards, Seq<TokenInstruction>),
            AmmError,
        >(r->Err_0) && *final(ctx) == *old(ctx),
        r is Ok ==> final(ctx).user_stake.settled(
            final(ctx).farming_pool.accumulated_reward_per_share,
        ),
        final(ctx).farming_pool.accumulated_reward_per_share >= old(
            ctx,
        ).farming_pool.accumulated_reward_per_share,
{
    if ctx.user_stake.owner != ctx.user {
        return Err(AmmError::InvalidAuthority);
    }
    if ctx.reward_vault.key != ctx.farming_pool.reward_vault {
        return Err(AmmError::InvalidPoolConfig);
    }
    let mut farm: FarmingPool = ctx.farming_pool;
    match farm.update_rewards(ctx.clock.slot) {
        Ok(()) => {},
        Err(e) => {
            return Err(e);
        },
    }
    let mut stake: UserStake = ctx.user_stake;
    let pending_rewards: u64 = match farm.calculate_pending_rewards(
        stake.staked_amount,
        stake.reward_debt,
    ) {
        Ok(v) => v,
        Err(e) => {
            return Err(e);
        },
    };
    if pending_rewards == 0 {
        return Err(AmmError::NoRewards);
    }
    let claimed: u64 = match stake.total_rewards_claimed.checked_add(pending_rewards) {
        Some(v) => v,
        None => {
            return Err(AmmError::MathOverflow);
        },
    };
    stake.total_rewards_claimed = claimed;
    stake.last_claim_slot = ctx.clock.slot;
    stake.update_reward_debt(farm.accumulated_reward_per_share);
    let mut requests: Vec<TokenInstruction> = Vec::new();
    requests.push(
        TokenInstruction::Transfer {
            from: ctx.reward_vault.key,
            to: ctx.user_reward_token.key,
            amount: pending_rewards,
        },
    );
    assert(requests@ =~= seq![
        TokenInstruction::Transfer {
            from: ctx.reward_vault.key,
            to: ctx.user_reward_token.key,
            amount: pending_rewards,
        },
    ]);
    ctx.farming_pool = farm;
    ctx.user_stake = stake;
    Ok(requests)
}

/// Pausing a pool does not reach its farm: staking, unstaking and claiming
/// are accepted or rejected, and change what they change, whether or not the
/// pool is paused.
pub proof fn lemma_farming_ignores_pause(
    stake: Stake,
    unstake: Unstake,
    claim: ClaimRewards,
    amount: u64,
    paused: bool,
)
    ensures
        ({
            let pool = Pool { is_paused: paused, ..stake.pool };
            let there = stake_spec(Stake { pool, ..stake }, amount);
            let here = stake_spec(stake, amount);
            &&& here is Err ==> there == Err::<(Stake, Seq<TokenInstruction>), AmmError>(
                here->Err_0,
            )
            &&& here is Ok ==> there == Ok::<(Stake, Seq<TokenInstruction>), AmmError>(
                (Stake { pool, ..here->Ok_0.0 }, here->Ok_0.1),
            )
        }),
        ({
            let pool = Pool { is_paused: paused, ..unstake.pool };
            let there = unstake_spec(Unstake { pool, ..unstake }, amount);
            let here = unstake_spec(unstake, amount);
            &&& here is Err ==> there == Err::<(Unstake, Seq<TokenInstruction>), AmmError>(
                here->Err_0,
            )
            &&& here is Ok ==> there == Ok::<(Unstake, Seq<TokenInstruction>), AmmError>(
                (Unstake { pool, ..here->Ok_0.0 }, here->Ok_0.1),
            )
        }),
        ({
            let pool = Pool { is_paused: paused, ..claim.pool };
            let there = claim_rewards_spec(ClaimRewards { pool, ..claim });
            let here = claim_rewards_spec(claim);
            &&& here is Err ==> there == Err::<(ClaimRewards, Seq<TokenInstruction>), AmmError>(
                here->Err_0,
            )
            &&& here is Ok ==> there == Ok::<(ClaimRewards, Seq<TokenInstruction>), AmmError>(
                (ClaimRewards { pool, ..here->Ok_0.0 }, here->Ok_0.1),
            )
        }),
{
}

/// The first stake into a farm whose accumulator is at zero starts without
/// debt.
pub proof fn lemma_first_stake_has_no_debt(ctx: Stake, amount: u64)
    requires
        ctx.farming_pool.accumulated_reward_per_share == 0,
        ctx.farming_pool.total_staked == 0,
        ctx.user_stake.staked_amount == 0,
        stake_spec(ctx, amount) is Ok,
    ensures
        ({
            let after = stake_spec(ctx, amount)->Ok_0.0;
            &&& after.user_stake.staked_amount == amount
            &&& after.user_stake.reward_debt == 0
            &&& after.farming_pool.total_staked == amount
            &&& after.farming_pool.accumulated_reward_per_share == 0
        }),
{
    assert(amount * 0u128 == 0) by (nonlinear_arith);
}

/// Staking again pays what the stake has earned before the stake grows.
/// Where a stake that holds shares stakes `amount` more, the rewards pending
/// at the accrued accumulator go from the farm's reward vault to the
/// staker's reward account, nothing where nothing is pending, and then the
/// shares go from the staker into the farm's share vault. The claimed total
/// grows by what was paid, stake and total stake grow by `amount`, and the
/// debt is set to the new stake's share of the accumulator.
pub proof fn lemma_staking_again_pays_rewards_first(ctx: Stake, amount: u64)
    requires
        ctx.user_stake.staked_amount > 0,
        stake_spec(ctx, amount) is Ok,
    ensures
        ({
            let (after, requests) = stake_spec(ctx, amount)->Ok_0;
            let farm = rewards_updated(ctx.farming_pool, ctx.clock.slot)->Ok_0;
            let pending = pending_rewards_spec(
                farm.accumulated_reward_per_share,
                ctx.user_stake.staked_amount,
                ctx.user_stake.reward_debt,
            )->Ok_0;
            &&& ctx.reward_vault.key == ctx.farming_pool.reward_vault
            &&& requests == transfer_if_any(
                ctx.reward_vault.key,
                ctx.user_reward_token.key,
                pending,
            ) + seq![
                TokenInstruction::Transfer {
                    from: ctx.user_lp_token.key,
                    to: ctx.lp_token_vault.key,
                    amount,
                },
            ]
            &&& after.user_stake.total_rewards_claimed == ctx.user_stake.total_rewards_claimed
                + pending
            &&& after.user_stake.staked_amount == ctx.user_stake.staked_amount + amount
            &&& after.user_stake.reward_debt == (ctx.user_stake.staked_amount + amount)
                * farm.accumulated_reward_per_share / 1_000_000_000_000
            &&& after.farming_pool.total_staked == farm.total_staked + amount
            &&& after.farming_pool.total_staked == ctx.farming_pool.total_staked + amount
            &&& after.farming_pool.accumulated_reward_per_share
                == farm.accumulated_reward_per_share
        }),
{
}

} // verus!
