//! Fixed parameters of the market maker.

use vstd::prelude::*;

verus! {

/// Liquidity locked for ever by the first deposit into a pool.
pub const MINIMUM_LIQUIDITY: u64 = 1000;

/// Default swap fee numerator (0.3%).
pub const DEFAULT_FEE_NUMERATOR: u64 = 3;

/// Default swap fee denominator (0.3%).
pub const DEFAULT_FEE_DENOMINATOR: u64 = 1000;

/// Flash loan fee numerator (0.09%).
pub const FLASH_LOAN_FEE_NUMERATOR: u64 = 9;

/// Flash loan fee denominator.
pub const FLASH_LOAN_FEE_DENOMINATOR: u64 = 10000;

/// Maximum age of a price sample, in seconds.
pub const MAX_ORACLE_AGE: i64 = 300;

/// Default tolerated deviation from the price feed, in basis points.
pub const DEFAULT_ORACLE_DEVIATION_BPS: u64 = 500;

/// One hundred percent, in basis points.
pub const MAX_BPS: u64 = 10000;

/// Largest number of pools a routed swap may cross.
pub const MAX_SWAP_HOPS: u8 = 3;

/// Scale of exchange rates and normalised prices: 10^9.
pub const PRICE_PRECISION: u128 = 1_000_000_000;

/// Scale of the reward-per-share accumulator: 10^12.
pub const REWARD_PRECISION: u128 = 1_000_000_000_000;

/// Shortest window over which an average price is meaningful, in seconds.
pub const MIN_TWAP_WINDOW: i64 = 60;

/// Shortest farming window, in slots.
pub const MIN_FARMING_DURATION: u64 = 9000;

/// Longest farming window, in slots.
pub const MAX_FARMING_DURATION: u64 = 6_480_000;

} // verus!
