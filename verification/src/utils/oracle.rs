//! The price-feed guard: brings feed samples to a common scale and holds a
//! swap's realised exchange rate against them.

use vstd::prelude::*;
use crate::errors::AmmError;
use crate::host::PriceFeed;
use crate::utils::arith::{lemma_div_no_larger, lemma_product_fits};

verus! {

/// Namespace of the price-feed functions.
pub struct OracleHelper;

/// `10^k`.
pub open spec fn pow10(k: nat) -> nat
    decreases k,
{
    if k == 0 {
        1
    } else {
        10 * pow10((k - 1) as nat)
    }
}

/// The magnitude of a feed exponent.
pub open spec fn abs_exponent(expo: i32) -> nat {
    if expo < 0 {
        (-expo) as nat
    } else {
        expo as nat
    }
}

/// The feed price `price * 10^expo` expressed in units of
/// `10^-target_decimals`, rounded down. A negative price is no price; a power
/// of ten beyond 128 bits or a result beyond 64 bits is an overflow.
pub open spec fn normalize_price_spec(price: i64, expo: i32, target_decimals: u32) -> Result<
    u64,
    AmmError,
> {
    let magnitude = abs_exponent(expo);
    if price < 0 {
        Err(AmmError::InvalidOracle)
    } else if expo < 0 && magnitude > target_decimals {
        let divisor = pow10((magnitude - target_decimals) as nat);
        if divisor > u128::MAX {
            Err(AmmError::MathOverflow)
        } else {
            Ok(((price as int) / (divisor as int)) as u64)
        }
    } else {
        let shift = if expo < 0 {
            (target_decimals - magnitude) as nat
        } else {
            (magnitude + target_decimals) as nat
        };
        let multiplier = pow10(shift);
        if multiplier > u128::MAX || price * multiplier > u64::MAX {
            Err(AmmError::MathOverflow)
        } else {
            Ok((price * multiplier) as u64)
        }
    }
}

/// Distance between two exchange rates in basis points of the larger one;
/// zero when both are zero.
pub open spec fn rate_deviation_bps(rate1: int, rate2: int) -> int {
    let larger = if rate1 >= rate2 { rate1 } else { rate2 };
    let smaller = if rate1 >= rate2 { rate2 } else { rate1 };
    if larger > 0 {
        (larger - smaller) * 10000 / larger
    } else {
        0
    }
}

/// The verdict of the guard on a swap of `amount_in` for `amount_out`: the
/// realised rate `amount_out * 10^9 / amount_in` may deviate from the feed
/// rate `price_b * 10^9 / price_a`, both prices taken at nine decimals, by at
/// most `max_deviation_bps`.
pub open spec fn swap_price_check(
    amount_in: u64,
    amount_out: u64,
    oracle_a: PriceFeed,
    oracle_b: PriceFeed,
    max_deviation_bps: u64,
) -> Result<(), AmmError> {
    let price_a = normalize_price_spec(oracle_a.price, oracle_a.exponent, 9);
    let price_b = normalize_price_spec(oracle_b.price, oracle_b.exponent, 9);
    if price_a is Err {
        Err(price_a->Err_0)
    } else if price_b is Err {
        Err(price_b->Err_0)
    } else if amount_in == 0 || price_a->Ok_0 == 0 {
        Err(AmmError::DivisionByZero)
    } else {
        let actual_rate = amount_out * 1_000_000_000 / (amount_in as int);
        let oracle_rate = price_b->Ok_0 * 1_000_000_000 / (price_a->Ok_0 as int);
        if rate_deviation_bps(actual_rate, oracle_rate) > max_deviation_bps {
            Err(AmmError::OraclePriceDeviation)
        } else {
            Ok(())
        }
    }
}

/// The confidence interval of a sample in basis points of its price; 10000
/// when the price is zero.
pub open spec fn confidence_percentage_spec(price: i64, confidence: u64) -> Result<u64, AmmError> {
    let magnitude: int = if price < 0 { -price } else { price as int };
    if price == 0 {
        Ok(10000)
    } else if (confidence * 10000) / magnitude > u64::MAX {
        Err(AmmError::MathOverflow)
    } else {
        Ok(((confidence * 10000) / magnitude) as u64)
    }
}

/// Powers of ten grow with the exponent.
pub proof fn lemma_pow10_monotone(i: nat, k: nat)
    requires
        i <= k,
    ensures
        0 < pow10(i) <= pow10(k),
    decreases k,
{
    if k == 0 {
    } else if i == k {
        lemma_pow10_monotone((k - 1) as nat, (k - 1) as nat);
    } else {
        lemma_pow10_monotone(i, (k - 1) as nat);
    }
}

/// `10^k` where it fits in 128 bits.
fn pow10_checked(k: u64) -> (r: Option<u128>)
    ensures
        r is Some ==> r->Some_0 == pow10(k as nat),
        r is None ==> pow10(k as nat) > u128::MAX,
{
    let mut power: u128 = 1;
    let mut i: u64 = 0;
    while i < k
        invariant
            i <= k,
            power == pow10(i as nat),
        decreases k - i,
    {
        match power.checked_mul(10) {
            Some(next) => {
                power = next;
            },
            None => {
                proof {
                    lemma_pow10_monotone((i + 1) as nat, k as nat);
                }
                return None;
            },
        }
        i = i + 1;
    }
    Some(power)
}

impl OracleHelper {
    /// The sample that a feed holds, as `(price, confidence, exponent)`.
    ///
    /// `max_age` is the bound that the reader of the feed account has already
    /// enforced; a sample carries no time of its own to hold against it.
    pub fn get_price(oracle: &PriceFeed, max_age: i64) -> (r: Result<(i64, u64, i32), AmmError>)
        ensures
            r == Ok::<(i64, u64, i32), AmmError>((oracle.price, oracle.confidence, oracle.exponent)),
    {
        Ok((oracle.price, oracle.confidence, oracle.exponent))
    }

    /// Brings a feed price to `target_decimals` decimals.
    pub fn normalize_price(price: i64, expo: i32, target_decimals: u32) -> (r: Result<u64, AmmError>)
        ensures
            r == normalize_price_spec(price, expo, target_decimals),
    {
        let magnitude: u64 = if expo < 0 {
            (-(expo as i64)) as u64
        } else {
            expo as u64
        };
        if price < 0 {
            return Err(AmmError::InvalidOracle);
        }
        let price_u128: u128 = price as u128;
        if expo < 0 && magnitude > target_decimals as u64 {
            let divisor: u128 = match pow10_checked(magnitude - target_decimals as u64) {
                Some(v) => v,
                None => {
                    return Err(AmmError::MathOverflow);
                },
            };
            proof {
                lemma_pow10_monotone(0, (magnitude - target_decimals) as nat);
                lemma_div_no_larger(price as int, divisor as int);
            }
            let normalized: u128 = price_u128 / divisor;
            Ok(normalized as u64)
        } else {
            let shift: u64 = if expo < 0 {
                target_decimals as u64 - magnitude
            } else {
                magnitude + target_decimals as u64
            };
            let multiplier: u128 = match pow10_checked(shift) {
                Some(v) => v,
                None => {
                    return Err(AmmError::MathOverflow);
                },
            };
            let normalized: u128 = match price_u128.checked_mul(multiplier) {
                Some(v) => v,
                None => {
                    return Err(AmmError::MathOverflow);
                },
            };
            if normalized > 0xffff_ffff_ffff_ffff {
                return Err(AmmError::MathOverflow);
            }
            Ok(normalized as u64)
        }
    }

    /// Holds a swap's realised rate against the two feeds and rejects it with
    /// `OraclePriceDeviation` where it strays further than
    /// `max_deviation_bps` allows. The direction of the swap does not enter:
    /// the feed rate is always that of asset B in units of asset A.
    pub fn validate_swap_price(
        amount_in: u64,
        amount_out: u64,
        oracle_a: &PriceFeed,
        oracle_b: &PriceFeed,
        max_age: i64,
        max_deviation_bps: u64,
        is_a_to_b: bool,
    ) -> (r: Result<(), AmmError>)
        ensures
            r == swap_price_check(amount_in, amount_out, *oracle_a, *oracle_b, max_deviation_bps),
    {
        let (price_a, _conf_a, expo_a) = match Self::get_price(oracle_a, max_age) {
            Ok(v) => v,
            Err(e) => {
                return Err(e);
            },
        };
        let (price_b, _conf_b, expo_b) = match Self::get_price(oracle_b, max_age) {
            Ok(v) => v,
            Err(e) => {
                return Err(e);
            },
        };
        let normalized_price_a: u64 = match Self::normalize_price(price_a, expo_a, 9) {
            Ok(v) => v,
            Err(e) => {
                return Err(e);
            },
        };
        let normalized_price_b: u64 = match Self::normalize_price(price_b, expo_b, 9) {
            Ok(v) => v,
            Err(e) => {
                return Err(e);
            },
        };
        if amount_in == 0 || normalized_price_a == 0 {
            return Err(AmmError::DivisionByZero);
        }
        proof {
            lemma_product_fits(amount_out, 1_000_000_000u64);
            lemma_product_fits(normalized_price_b, 1_000_000_000u64);
        }
        let actual_rate: u128 = (amount_out as u128) * 1_000_000_000u128 / (amount_in as u128);
        let oracle_rate: u128 = (normalized_price_b as u128) * 1_000_000_000u128 / (
        normalized_price_a as u128);
        let larger: u128 = if actual_rate >= oracle_rate { actual_rate } else { oracle_rate };
        let smaller: u128 = if actual_rate >= oracle_rate { oracle_rate } else { actual_rate };
        if larger > 0 {
            proof {
                lemma_div_no_larger(amount_out * 1_000_000_000, amount_in as int);
                lemma_div_no_larger(normalized_price_b * 1_000_000_000, normalized_price_a as int);
            }
            let deviation_bps: u128 = (larger - smaller) * 10000u128 / larger;
            if deviation_bps > max_deviation_bps as u128 {
                return Err(AmmError::OraclePriceDeviation);
            }
        }
        Ok(())
    }

    /// The confidence interval of a sample in basis points of its price.
    pub fn get_confidence_percentage(price: i64, confidence: u64) -> (r: Result<u64, AmmError>)
        ensures
            r == confidence_percentage_spec(price, confidence),
    {
        if price == 0 {
            return Ok(10000);
        }
        let magnitude: u128 = if price < 0 {
            (-(price as i128)) as u128
        } else {
            price as u128
        };
        proof {
            lemma_product_fits(confidence, 10000u64);
        }
        let confidence_pct: u128 = (confidence as u128) * 10000u128 / magnitude;
        if confidence_pct > 0xffff_ffff_ffff_ffff {
            return Err(AmmError::MathOverflow);
        }
        Ok(confidence_pct as u64)
    }
}

} // verus!
