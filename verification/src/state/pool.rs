//! A liquidity pool over two assets, and one provider's position in it.

use vstd::prelude::*;
use crate::errors::AmmError;
use crate::host::Pubkey;
use crate::utils::arith::lemma_product_fits;

verus! {

/// State of one pool.
#[derive(Clone, Copy, Debug, PartialEq, Eq, Structural)]
pub struct Pool {
    /// Principal that may administer the pool.
    pub authority: Pubkey,
    /// Asset A.
    pub token_a_mint: Pubkey,
    /// Asset B.
    pub token_b_mint: Pubkey,
    /// The pool's holding account of asset A.
    pub token_a_vault: Pubkey,
    /// The pool's holding account of asset B.
    pub token_b_vault: Pubkey,
    /// The share token.
    pub lp_mint: Pubkey,
    /// Reserve of asset A.
    pub reserve_a: u64,
    /// Reserve of asset B.
    pub reserve_b: u64,
    /// Shares in existence, the locked minimum included.
    pub total_lp_supply: u64,
    /// Swap fee numerator.
    pub fee_numerator: u64,
    /// Swap fee denominator.
    pub fee_denominator: u64,
    /// Price feed of asset A.
    pub oracle_a: Pubkey,
    /// Price feed of asset B.
    pub oracle_b: Pubkey,
    /// Oldest feed sample accepted, in seconds.
    pub oracle_max_age: i64,
    /// Largest tolerated deviation from the feed rate, in basis points.
    pub oracle_max_deviation_bps: u64,
    /// A paused pool rejects every operation that moves its reserves.
    pub is_paused: bool,
    /// Time-weighted sum of the price of A in B.
    pub cumulative_price_a: u128,
    /// Time-weighted sum of the price of B in A.
    pub cumulative_price_b: u128,
    /// When the sums were last advanced; zero while unset.
    pub last_update_timestamp: i64,
    /// Asset A swapped in so far.
    pub total_volume_a: u64,
    /// Asset B swapped in so far.
    pub total_volume_b: u64,
    /// Fees taken in asset A so far.
    pub total_fees_a: u64,
    /// Fees taken in asset B so far.
    pub total_fees_b: u64,
    /// Address derivation seed.
    pub bump: u8,
}

/// A fee of `numerator / denominator` is a proper fraction of at most a tenth.
pub open spec fn valid_fee(numerator: u64, denominator: u64) -> bool {
    numerator < denominator && numerator * 10 <= denominator
}

/// The spot price `reserve_b * 10^9 / reserve_a` of a pool with liquidity.
pub open spec fn spot_price_spec(pool: Pool) -> Result<u64, AmmError> {
    let price = pool.reserve_b * 1_000_000_000 / (pool.reserve_a as int);
    if pool.reserve_a == 0 || pool.reserve_b == 0 {
        Err(AmmError::InsufficientLiquidity)
    } else if price > u64::MAX {
        Err(AmmError::MathOverflow)
    } else {
        Ok(price as u64)
    }
}

/// Seconds counted by the accumulators between the last update and `now`:
/// the difference where it is positive and fits in 64 bits, else zero.
pub open spec fn twap_elapsed(last: i64, now: i64) -> int {
    if 0 < now - last <= i64::MAX {
        now - last
    } else {
        0
    }
}

/// The pool after its price accumulators have been brought up to `now`.
///
/// An unset clock is set and nothing accrues. Otherwise, where time has
/// passed and both reserves are positive, each accumulator grows by the
/// other asset's reserve times the seconds passed over its own reserve, and
/// the clock advances; else nothing changes.
pub open spec fn twap_updated(pool: Pool, now: i64) -> Result<Pool, AmmError> {
    let elapsed = twap_elapsed(pool.last_update_timestamp, now);
    if pool.last_update_timestamp == 0 {
        Ok(Pool { last_update_timestamp: now, ..pool })
    } else if elapsed > 0 && pool.reserve_a > 0 && pool.reserve_b > 0 {
        let price_a = pool.reserve_b * elapsed / (pool.reserve_a as int);
        let price_b = pool.reserve_a * elapsed / (pool.reserve_b as int);
        if pool.cumulative_price_a + price_a > u128::MAX || pool.cumulative_price_b + price_b
            > u128::MAX {
            Err(AmmError::MathOverflow)
        } else {
            Ok(
                Pool {
                    cumulative_price_a: (pool.cumulative_price_a + price_a) as u128,
                    cumulative_price_b: (pool.cumulative_price_b + price_b) as u128,
                    last_update_timestamp: now,
                    ..pool
                },
            )
        }
    } else {
        Ok(pool)
    }
}

/// The accumulator of A divided by the length of the window `from..to`.
///
/// This is the average price over the window only where the accumulator
/// stood at zero when the window began. The average over any other window
/// is the difference of the accumulator's values at its two ends, divided
/// by its length; the pool keeps the present value only.
pub open spec fn twap_spec(pool: Pool, from_timestamp: i64, to_timestamp: i64) -> Result<
    u64,
    AmmError,
> {
    let time_delta = to_timestamp - from_timestamp;
    if to_timestamp <= from_timestamp {
        Err(AmmError::InvalidTimeRange)
    } else if time_delta > i64::MAX || pool.cumulative_price_a as int / time_delta > u64::MAX {
        Err(AmmError::MathOverflow)
    } else {
        Ok((pool.cumulative_price_a as int / time_delta) as u64)
    }
}

impl Pool {
    /// The invariant of a pool: a valid fee, and reserves and share supply
    /// that are empty together or not at all.
    pub open spec fn wf(&self) -> bool {
        &&& valid_fee(self.fee_numerator, self.fee_denominator)
        &&& (self.reserve_a == 0 <==> self.total_lp_supply == 0)
        &&& (self.reserve_b == 0 <==> self.total_lp_supply == 0)
    }

    /// Price of asset A in asset B, scaled by 10^9.
    pub fn get_spot_price(&self) -> (r: Result<u64, AmmError>)
        ensures
            r == spot_price_spec(*self),
    {
        if self.reserve_a == 0 || self.reserve_b == 0 {
            return Err(AmmError::InsufficientLiquidity);
        }
        proof {
            lemma_product_fits(self.reserve_b, 1_000_000_000u64);
        }
        let price: u128 = (self.reserve_b as u128) * 1_000_000_000u128 / (self.reserve_a as u128);
        if price > 0xffff_ffff_ffff_ffff {
            return Err(AmmError::MathOverflow);
        }
        Ok(price as u64)
    }

    /// Brings the price accumulators up to `current_timestamp`. On an error
    /// the pool is unchanged.
    pub fn update_twap(&mut self, current_timestamp: i64) -> (r: Result<(), AmmError>)
        ensures
            r is Ok ==> twap_updated(*old(self), current_timestamp) == Ok::<Pool, AmmError>(
                *final(self),
            ),
            r is Err ==> twap_updated(*old(self), current_timestamp) == Err::<Pool, AmmError>(
                r->Err_0,
            ) && *final(self) == *old(self),
    {
        if self.last_update_timestamp == 0 {
            self.last_update_timestamp = current_timestamp;
            return Ok(());
        }
        let time_elapsed: i64 = match current_timestamp.checked_sub(self.last_update_timestamp) {
            Some(v) => v,
            None => 0,
        };
        if time_elapsed > 0 && self.reserve_a > 0 && self.reserve_b > 0 {
            let elapsed: u64 = time_elapsed as u64;
            proof {
                lemma_product_fits(self.reserve_b, elapsed);
                lemma_product_fits(self.reserve_a, elapsed);
            }
            let price_a: u128 = (self.reserve_b as u128) * (elapsed as u128) / (
            self.reserve_a as u128);
            let price_b: u128 = (self.reserve_a as u128) * (elapsed as u128) / (
            self.reserve_b as u128);
            let cumulative_a: u128 = match self.cumulative_price_a.checked_add(price_a) {
                Some(v) => v,
                None => {
                    return Err(AmmError::MathOverflow);
                },
            };
            let cumulative_b: u128 = match self.cumulative_price_b.checked_add(price_b) {
                Some(v) => v,
                None => {
                    return Err(AmmError::MathOverflow);
                },
            };
            self.cumulative_price_a = cumulative_a;
            self.cumulative_price_b = cumulative_b;
            self.last_update_timestamp = current_timestamp;
        }
        Ok(())
    }

    /// The accumulator of A divided by the length of the window
    /// `from_timestamp..to_timestamp`: the average price of asset A over the
    /// window where the accumulator stood at zero when the window began.
    pub fn get_twap(&self, from_timestamp: i64, to_timestamp: i64) -> (r: Result<u64, AmmError>)
        ensures
            r == twap_spec(*self, from_timestamp, to_timestamp),
    {
        if to_timestamp <= from_timestamp {
            return Err(AmmError::InvalidTimeRange);
        }
        let time_delta: i64 = match to_timestamp.checked_sub(from_timestamp) {
            Some(v) => v,
            None => {
                return Err(AmmError::MathOverflow);
            },
        };
        let twap: u128 = self.cumulative_price_a / (time_delta as u128);
        if twap > 0xffff_ffff_ffff_ffff {
            return Err(AmmError::MathOverflow);
        }
        Ok(twap as u64)
    }
}

impl Default for Pool {
    /// The zeroed record that a pool starts from.
    fn default() -> (r: Pool)
        ensures
            r == (Pool {
                authority: Pubkey { hi: 0, lo: 0 },
                token_a_mint: Pubkey { hi: 0, lo: 0 },
                token_b_mint: Pubkey { hi: 0, lo: 0 },
                token_a_vault: Pubkey { hi: 0, lo: 0 },
                token_b_vault: Pubkey { hi: 0, lo: 0 },
                lp_mint: Pubkey { hi: 0, lo: 0 },
                reserve_a: 0,
                reserve_b: 0,
                total_lp_supply: 0,
                fee_numerator: 0,
                fee_denominator: 0,
                oracle_a: Pubkey { hi: 0, lo: 0 },
                oracle_b: Pubkey { hi: 0, lo: 0 },
                oracle_max_age: 0,
                oracle_max_deviation_bps: 0,
                is_paused: false,
                cumulative_price_a: 0,
                cumulative_price_b: 0,
                last_update_timestamp: 0,
                total_volume_a: 0,
                total_volume_b: 0,
                total_fees_a: 0,
                total_fees_b: 0,
                bump: 0,
            }),
    {
        let zero = Pubkey { hi: 0, lo: 0 };
        Pool {
            authority: zero,
            token_a_mint: zero,
            token_b_mint: zero,
            token_a_vault: zero,
            token_b_vault: zero,
            lp_mint: zero,
            reserve_a: 0,
            reserve_b: 0,
            total_lp_supply: 0,
            fee_numerator: 0,
            fee_denominator: 0,
            oracle_a: zero,
            oracle_b: zero,
            oracle_max_age: 0,
            oracle_max_deviation_bps: 0,
            is_paused: false,
            cumulative_price_a: 0,
            cumulative_price_b: 0,
            last_update_timestamp: 0,
            total_volume_a: 0,
            total_volume_b: 0,
            total_fees_a: 0,
            total_fees_b: 0,
            bump: 0,
        }
    }
}

/// One provider's position in one pool.
#[derive(Clone, Copy, Debug, PartialEq, Eq, Structural)]
pub struct LiquidityProvider {
    /// Owner of the position.
    pub owner: Pubkey,
    /// Pool the position belongs to.
    pub pool: Pubkey,
    /// Shares held.
    pub lp_token_amount: u64,
    /// Asset A paid in when the position was opened.
    pub initial_deposit_a: u64,
    /// Asset B paid in when the position was opened.
    pub initial_deposit_b: u64,
    /// When the position was opened.
    pub created_at: i64,
    /// Address derivation seed.
    pub bump: u8,
}

impl Default for LiquidityProvider {
    /// The zeroed record of a position that has not been opened yet.
    fn default() -> (r: LiquidityProvider)
        ensures
            r == (LiquidityProvider {
                owner: Pubkey { hi: 0, lo: 0 },
                pool: Pubkey { hi: 0, lo: 0 },
                lp_token_amount: 0,
                initial_deposit_a: 0,
                initial_deposit_b: 0,
                created_at: 0,
                bump: 0,
            }),
    {
        LiquidityProvider {
            owner: Pubkey { hi: 0, lo: 0 },
            pool: Pubkey { hi: 0, lo: 0 },
            lp_token_amount: 0,
            initial_deposit_a: 0,
            initial_deposit_b: 0,
            created_at: 0,
            bump: 0,
        }
    }
}

} // verus!
