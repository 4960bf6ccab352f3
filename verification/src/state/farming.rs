//! Staking of pool shares for a reward that accrues per slot.
//!
//! The farm keeps one accumulator, the reward earned so far by one staked
//! unit, scaled by 10^12. A staker's claim is the accumulator times the stake,
//! less the debt recorded when the stake last changed.

use vstd::prelude::*;
use crate::errors::AmmError;
use crate::host::Pubkey;
use crate::utils::arith::lemma_product_fits;

verus! {

/// State of one farm.
#[derive(Clone, Copy, Debug, PartialEq, Eq, Structural)]
pub struct FarmingPool {
    /// Principal that may administer the farm.
    pub authority: Pubkey,
    /// The liquidity pool whose shares are staked.
    pub pool: Pubkey,
    /// The share token.
    pub lp_mint: Pubkey,
    /// The reward token.
    pub reward_mint: Pubkey,
    /// Account that holds the rewards.
    pub reward_vault: Pubkey,
    /// Shares staked by all stakers.
    pub total_staked: u64,
    /// Reward handed out per slot, over all stakers.
    pub reward_per_slot: u64,
    /// First slot of the farming window.
    pub start_slot: u64,
    /// Slot at which accrual stops.
    pub end_slot: u64,
    /// Slot up to which rewards have been accrued.
    pub last_update_slot: u64,
    /// Reward earned so far by one staked unit, scaled by 10^12.
    pub accumulated_reward_per_share: u128,
    /// Rewards accrued so far, saturating.
    pub total_rewards_distributed: u64,
    /// Whether the farm takes new stakes.
    pub is_active: bool,
    /// Address derivation seed.
    pub bump: u8,
}

/// Slots for which rewards accrue when the farm is brought up to
/// `current_slot`: from the last update to `current_slot` or the end of the
/// window, whichever comes first.
pub open spec fn accrual_slots(farm: FarmingPool, current_slot: u64) -> int {
    let effective_end = if current_slot <= farm.end_slot { current_slot } else { farm.end_slot };
    if effective_end > farm.last_update_slot {
        effective_end - farm.last_update_slot
    } else {
        0
    }
}

/// The farm after rewards have been accrued up to `current_slot`.
///
/// With nothing staked only the watermark moves. Otherwise, where slots have
/// passed inside the window, the accumulator grows by the reward of those
/// slots, scaled by 10^12, per staked unit, the running total grows by that
/// reward up to its ceiling, and the watermark moves to `current_slot`.
pub open spec fn rewards_updated(farm: FarmingPool, current_slot: u64) -> Result<
    FarmingPool,
    AmmError,
> {
    let elapsed = accrual_slots(farm, current_slot);
    let reward_pool = farm.reward_per_slot * elapsed;
    let per_share = reward_pool * 1_000_000_000_000 / (farm.total_staked as int);
    let distributed = farm.total_rewards_distributed + reward_pool;
    if farm.total_staked == 0 {
        Ok(FarmingPool { last_update_slot: current_slot, ..farm })
    } else if elapsed == 0 {
        Ok(farm)
    } else if reward_pool * 1_000_000_000_000 > u128::MAX || farm.accumulated_reward_per_share
        + per_share > u128::MAX {
        Err(AmmError::MathOverflow)
    } else {
        Ok(
            FarmingPool {
                accumulated_reward_per_share: (farm.accumulated_reward_per_share
                    + per_share) as u128,
                total_rewards_distributed: if distributed > u64::MAX {
                    u64::MAX
                } else {
                    distributed as u64
                },
                last_update_slot: current_slot,
                ..farm
            },
        )
    }
}

/// The debt that offsets everything a stake of `staked_amount` would have
/// earned up to the accumulator value given.
pub open spec fn reward_debt_spec(staked_amount: u64, accumulated_reward_per_share: u128) -> int {
    staked_amount * accumulated_reward_per_share / 1_000_000_000_000
}

/// Rewards that a stake has earned and not yet been paid: its share of the
/// accumulator less its debt, zero where the debt is larger.
pub open spec fn pending_rewards_spec(
    accumulated_reward_per_share: u128,
    staked_amount: u64,
    reward_debt: u128,
) -> Result<u64, AmmError> {
    let total_accumulated = reward_debt_spec(staked_amount, accumulated_reward_per_share);
    let pending = if total_accumulated >= reward_debt {
        total_accumulated - reward_debt
    } else {
        0
    };
    if staked_amount * accumulated_reward_per_share > u128::MAX || pending > u64::MAX {
        Err(AmmError::MathOverflow)
    } else {
        Ok(pending as u64)
    }
}

impl FarmingPool {
    /// Accrues rewards up to `current_slot`. The accumulator never
    /// decreases; on an error the farm is unchanged.
    pub fn update_rewards(&mut self, current_slot: u64) -> (r: Result<(), AmmError>)
        ensures
            r is Ok ==> rewards_updated(*old(self), current_slot) == Ok::<FarmingPool, AmmError>(
                *final(self),
            ),
            r is Err ==> rewards_updated(*old(self), current_slot) == Err::<
                FarmingPool,
                AmmError,
            >(r->Err_0) && *final(self) == *old(self),
            final(self).accumulated_reward_per_share >= old(self).accumulated_reward_per_share,
    {
        if self.total_staked == 0 {
            self.last_update_slot = current_slot;
            return Ok(());
        }
        let effective_end: u64 = if current_slot <= self.end_slot {
            current_slot
        } else {
            self.end_slot
        };
        let slots_elapsed: u64 = if effective_end > self.last_update_slot {
            effective_end - self.last_update_slot
        } else {
            0
        };
        if slots_elapsed > 0 {
            proof {
                lemma_product_fits(self.reward_per_slot, slots_elapsed);
            }
            let rewards: u128 = (self.reward_per_slot as u128) * (slots_elapsed as u128);
            let scaled: u128 = match rewards.checked_mul(1_000_000_000_000u128) {
                Some(v) => v,
                None => {
                    return Err(AmmError::MathOverflow);
                },
            };
            let reward_per_share: u128 = scaled / (self.total_staked as u128);
            let accumulated: u128 = match self.accumulated_reward_per_share.checked_add(
                reward_per_share,
            ) {
                Some(v) => v,
                None => {
                    return Err(AmmError::MathOverflow);
                },
            };
            let room: u64 = 0xffff_ffff_ffff_ffff - self.total_rewards_distributed;
            let distributed: u64 = if rewards > room as u128 {
                0xffff_ffff_ffff_ffff
            } else {
                self.total_rewards_distributed + (rewards as u64)
            };
            self.accumulated_reward_per_share = accumulated;
            self.total_rewards_distributed = distributed;
            self.last_update_slot = current_slot;
        }
        Ok(())
    }

    /// Rewards that a stake of `staked_amount` with the given debt can claim
    /// at the accumulator's present value.
    pub fn calculate_pending_rewards(&self, staked_amount: u64, reward_debt: u128) -> (r: Result<
        u64,
        AmmError,
    >)
        ensures
            r == pending_rewards_spec(
                self.accumulated_reward_per_share,
                staked_amount,
                reward_debt,
            ),
    {
        let product: u128 = match (staked_amount as u128).checked_mul(
            self.accumulated_reward_per_share,
        ) {
            Some(v) => v,
            None => {
                return Err(AmmError::MathOverflow);
            },
        };
        let total_accumulated: u128 = product / 1_000_000_000_000u128;
        let pending: u128 = if total_accumulated >= reward_debt {
            total_accumulated - reward_debt
        } else {
            0
        };
        if pending > 0xffff_ffff_ffff_ffff {
            return Err(AmmError::MathOverflow);
        }
        Ok(pending as u64)
    }
}

impl Default for FarmingPool {
    /// The zeroed record that a farm starts from.
    fn default() -> (r: FarmingPool)
        ensures
            r == (FarmingPool {
                authority: Pubkey { hi: 0, lo: 0 },
                pool: Pubkey { hi: 0, lo: 0 },
                lp_mint: Pubkey { hi: 0, lo: 0 },
                reward_mint: Pubkey { hi: 0, lo: 0 },
                reward_vault: Pubkey { hi: 0, lo: 0 },
                total_staked: 0,
                reward_per_slot: 0,
                start_slot: 0,
                end_slot: 0,
                last_update_slot: 0,
                accumulated_reward_per_share: 0,
                total_rewards_distributed: 0,
                is_active: false,
                bump: 0,
            }),
    {
        let zero = Pubkey { hi: 0, lo: 0 };
        FarmingPool {
            authority: zero,
            pool: zero,
            lp_mint: zero,
            reward_mint: zero,
            reward_vault: zero,
            total_staked: 0,
            reward_per_slot: 0,
            start_slot: 0,
            end_slot: 0,
            last_update_slot: 0,
            accumulated_reward_per_share: 0,
            total_rewards_distributed: 0,
            is_active: false,
            bump: 0,
        }
    }
}

/// One staker's position in one farm.
#[derive(Clone, Copy, Debug, PartialEq, Eq, Structural)]
pub struct UserStake {
    /// Owner of the stake.
    pub owner: Pubkey,
    /// Farm the stake belongs to.
    pub farming_pool: Pubkey,
    /// Shares staked.
    pub staked_amount: u64,
    /// Offset that keeps rewards earned before the last change of the stake
    /// out of later payouts.
    pub reward_debt: u128,
    /// When the stake was opened.
    pub created_at: i64,
    /// Slot of the last payout.
    pub last_claim_slot: u64,
    /// Rewards paid out so far.
    pub total_rewards_claimed: u64,
    /// Address derivation seed.
    pub bump: u8,
}

impl UserStake {
    /// The debt matches the stake at the accumulator value given.
    pub open spec fn settled(&self, accumulated_reward_per_share: u128) -> bool {
        self.reward_debt == reward_debt_spec(self.staked_amount, accumulated_reward_per_share)
    }

    /// Sets the debt to what the present stake would have earned up to
    /// `accumulated_reward_per_share`, so that only later accrual pays out.
    pub fn update_reward_debt(&mut self, accumulated_reward_per_share: u128)
        requires
            old(self).staked_amount * accumulated_reward_per_share <= u128::MAX,
        ensures
            *final(self) == (UserStake {
                reward_debt: reward_debt_spec(
                    old(self).staked_amount,
                    accumulated_reward_per_share,
                ) as u128,
                ..*old(self)
            }),
            final(self).settled(accumulated_reward_per_share),
    {
        let product: u128 = (self.staked_amount as u128) * accumulated_reward_per_share;
        self.reward_debt = product / 1_000_000_000_000u128;
    }
}

impl Default for UserStake {
    /// The zeroed record of a stake that has not been opened yet.
    fn default() -> (r: UserStake)
        ensures
            r == (UserStake {
                owner: Pubkey { hi: 0, lo: 0 },
                farming_pool: Pubkey { hi: 0, lo: 0 },
                staked_amount: 0,
                reward_debt: 0,
                created_at: 0,
                last_claim_slot: 0,
                total_rewards_claimed: 0,
                bump: 0,
            }),
    {
        UserStake {
            owner: Pubkey { hi: 0, lo: 0 },
            farming_pool: Pubkey { hi: 0, lo: 0 },
            staked_amount: 0,
            reward_debt: 0,
            created_at: 0,
            last_claim_slot: 0,
            total_rewards_claimed: 0,
            bump: 0,
        }
    }
}

/// A staker who alone holds the whole stake earns the whole reward, to the
/// unit: where the stake divides 10^12, as a stake of 100 does, accruing
/// `slots` slots inside the window from a zero accumulator makes the pending
/// reward of the stake, without debt, exactly `reward_per_slot * slots`.
pub proof fn lemma_single_staker_earns_all(farm: FarmingPool, slots: u64)
    requires
        farm.total_staked > 0,
        1_000_000_000_000int % (farm.total_staked as int) == 0,
        farm.accumulated_reward_per_share == 0,
        slots > 0,
        farm.last_update_slot + slots <= farm.end_slot,
        rewards_updated(farm, (farm.last_update_slot + slots) as u64) is Ok,
    ensures
        ({
            let after = rewards_updated(farm, (farm.last_update_slot + slots) as u64)->Ok_0;
            let reward = farm.reward_per_slot * slots;
            &&& after.last_update_slot == farm.last_update_slot + slots
            &&& after.total_staked == farm.total_staked
            &&& reward <= u64::MAX ==> pending_rewards_spec(
                after.accumulated_reward_per_share,
                farm.total_staked,
                0,
            ) == Ok::<u64, AmmError>(reward as u64)
        }),
{
    let s = farm.total_staked as int;
    let scale = 1_000_000_000_000int;
    let reward = farm.reward_per_slot * slots;
    let k = scale / s;
    lemma_product_fits(farm.reward_per_slot, slots);
    assert(k * s == scale) by (nonlinear_arith)
        requires
            k == scale / s,
            scale % s == 0,
            s > 0,
    ;
    assert(accrual_slots(farm, (farm.last_update_slot + slots) as u64) == slots);
    let per_share = reward * scale / s;
    assert(reward * scale == (reward * k) * s) by (nonlinear_arith)
        requires
            k * s == scale,
    ;
    assert(per_share == reward * k) by (nonlinear_arith)
        requires
            per_share == ((reward * k) * s) / s,
            s > 0,
    ;
    let after = rewards_updated(farm, (farm.last_update_slot + slots) as u64)->Ok_0;
    assert(after.accumulated_reward_per_share == reward * k);
    assert(s * (reward * k) == reward * scale) by (nonlinear_arith)
        requires
            k * s == scale,
    ;
    assert((reward * scale) / scale == reward) by (nonlinear_arith)
        requires
            scale == 1_000_000_000_000int,
    ;
    assert(reward * scale <= u128::MAX);
    assert(farm.total_staked * after.accumulated_reward_per_share == reward * scale);
    assert(reward_debt_spec(farm.total_staked, after.accumulated_reward_per_share) == reward);
}

} // verus!
