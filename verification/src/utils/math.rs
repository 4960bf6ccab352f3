//! Constant-product pricing (`x * y = k`) and liquidity-share arithmetic.
//!
//! Every function computes in 128 bits and reports `MathOverflow` where an
//! intermediate value or the result does not fit; nothing wraps.

use vstd::prelude::*;
use crate::errors::AmmError;
use crate::utils::arith::{lemma_div_at_most, lemma_div_bounds, lemma_product_fits};

verus! {

/// Namespace of the pricing functions.
pub struct AmmMath;

/// The input that is left after the fee, scaled by the fee denominator.
pub open spec fn net_input(amount_in: u64, fee_numerator: u64, fee_denominator: u64) -> int {
    amount_in * (fee_denominator - fee_numerator)
}

/// What `amount_in` buys from a pool with the given reserves and fee:
/// `net * reserve_out / (reserve_in * fee_denominator + net)`, rounded down,
/// where `net = amount_in * (fee_denominator - fee_numerator)`.
pub open spec fn amount_out_spec(
    amount_in: u64,
    reserve_in: u64,
    reserve_out: u64,
    fee_numerator: u64,
    fee_denominator: u64,
) -> Result<u64, AmmError> {
    let net = net_input(amount_in, fee_numerator, fee_denominator);
    let denominator = reserve_in * fee_denominator + net;
    if amount_in == 0 {
        Err(AmmError::ZeroAmount)
    } else if reserve_in == 0 || reserve_out == 0 {
        Err(AmmError::InsufficientLiquidity)
    } else if fee_numerator > fee_denominator {
        Err(AmmError::MathOverflow)
    } else if net * reserve_out > u128::MAX || denominator > u128::MAX {
        Err(AmmError::MathOverflow)
    } else if denominator == 0 {
        Err(AmmError::DivisionByZero)
    } else {
        Ok((net * reserve_out / denominator) as u64)
    }
}

/// The input that the curve quotes for `amount_out`:
/// `reserve_in * amount_out * fee_denominator
///  / ((reserve_out - amount_out) * (fee_denominator - fee_numerator))`,
/// rounded down, plus one unit in the pool's favour.
pub open spec fn amount_in_spec(
    amount_out: u64,
    reserve_in: u64,
    reserve_out: u64,
    fee_numerator: u64,
    fee_denominator: u64,
) -> Result<u64, AmmError> {
    let numerator = reserve_in * amount_out * fee_denominator;
    let denominator = (reserve_out - amount_out) * (fee_denominator - fee_numerator);
    if amount_out == 0 {
        Err(AmmError::ZeroAmount)
    } else if reserve_in == 0 || reserve_out <= amount_out {
        Err(AmmError::InsufficientLiquidity)
    } else if fee_numerator > fee_denominator || numerator > u128::MAX {
        Err(AmmError::MathOverflow)
    } else if denominator == 0 {
        Err(AmmError::DivisionByZero)
    } else if numerator / denominator + 1 > u64::MAX {
        Err(AmmError::MathOverflow)
    } else {
        Ok((numerator / denominator + 1) as u64)
    }
}

/// `r` is the integer square root of `y`: the largest integer whose square
/// does not exceed `y`.
pub open spec fn is_sqrt(y: int, r: int) -> bool {
    0 <= r && r * r <= y < (r + 1) * (r + 1)
}

/// The integer square root of `y`.
pub open spec fn sqrt_spec(y: int) -> int {
    choose|r: int| is_sqrt(y, r)
}

/// Shares for a deposit into a pool that already has liquidity: the smaller
/// of the two sides' pro-rata claims.
pub open spec fn liquidity_spec(
    amount_a: u64,
    amount_b: u64,
    reserve_a: u64,
    reserve_b: u64,
    total_supply: u64,
) -> Result<u64, AmmError> {
    let liquidity_a = amount_a * total_supply / (reserve_a as int);
    let liquidity_b = amount_b * total_supply / (reserve_b as int);
    let liquidity = if liquidity_a <= liquidity_b { liquidity_a } else { liquidity_b };
    if reserve_a == 0 || reserve_b == 0 {
        Err(AmmError::InsufficientLiquidity)
    } else if liquidity > u64::MAX {
        Err(AmmError::MathOverflow)
    } else {
        Ok(liquidity as u64)
    }
}

/// The reserves that `liquidity` shares out of `total_supply` redeem.
pub open spec fn withdraw_amounts_spec(
    liquidity: u64,
    total_supply: u64,
    reserve_a: u64,
    reserve_b: u64,
) -> Result<(u64, u64), AmmError> {
    let amount_a = liquidity * reserve_a / (total_supply as int);
    let amount_b = liquidity * reserve_b / (total_supply as int);
    if total_supply == 0 {
        Err(AmmError::InsufficientLiquidity)
    } else if amount_a > u64::MAX || amount_b > u64::MAX {
        Err(AmmError::MathOverflow)
    } else {
        Ok((amount_a as u64, amount_b as u64))
    }
}

/// Distance between two values in basis points of the larger one; 10000 when
/// either is zero.
pub open spec fn deviation_bps_spec(value1: u64, value2: u64) -> int {
    if value1 == 0 || value2 == 0 {
        10000
    } else if value1 >= value2 {
        (value1 - value2) * 10000 / (value1 as int)
    } else {
        (value2 - value1) * 10000 / (value2 as int)
    }
}

/// `amount * bps / 10000`, rounded down.
pub open spec fn apply_bps_spec(amount: u64, bps: u64) -> Result<u64, AmmError> {
    if amount * bps / 10000 > u64::MAX {
        Err(AmmError::MathOverflow)
    } else {
        Ok((amount * bps / 10000) as u64)
    }
}

impl AmmMath {
    /// Output of a swap of `amount_in` against the given reserves, after the
    /// fee `fee_numerator / fee_denominator` has been taken from the input.
    pub fn get_amount_out(
        amount_in: u64,
        reserve_in: u64,
        reserve_out: u64,
        fee_numerator: u64,
        fee_denominator: u64,
    ) -> (r: Result<u64, AmmError>)
        ensures
            r == amount_out_spec(amount_in, reserve_in, reserve_out, fee_numerator, fee_denominator),
            r is Ok ==> r->Ok_0 < reserve_out,
    {
        if amount_in == 0 {
            return Err(AmmError::ZeroAmount);
        }
        if reserve_in == 0 || reserve_out == 0 {
            return Err(AmmError::InsufficientLiquidity);
        }
        if fee_numerator > fee_denominator {
            return Err(AmmError::MathOverflow);
        }
        let keep: u64 = fee_denominator - fee_numerator;
        proof {
            lemma_product_fits(amount_in, keep);
            lemma_product_fits(reserve_in, fee_denominator);
        }
        let amount_in_with_fee: u128 = (amount_in as u128) * (keep as u128);
        let numerator: u128 = match amount_in_with_fee.checked_mul(reserve_out as u128) {
            Some(v) => v,
            None => {
                return Err(AmmError::MathOverflow);
            },
        };
        let scaled_reserve: u128 = (reserve_in as u128) * (fee_denominator as u128);
        let denominator: u128 = match scaled_reserve.checked_add(amount_in_with_fee) {
            Some(v) => v,
            None => {
                return Err(AmmError::MathOverflow);
            },
        };
        if denominator == 0 {
            return Err(AmmError::DivisionByZero);
        }
        let amount_out: u128 = numerator / denominator;
        proof {
            assert(scaled_reserve > 0) by (nonlinear_arith)
                requires
                    scaled_reserve == reserve_in * fee_denominator,
                    amount_in_with_fee == amount_in * (fee_denominator - fee_numerator),
                    scaled_reserve + amount_in_with_fee > 0,
                    reserve_in > 0,
                    0 <= fee_numerator <= fee_denominator,
            ;
            lemma_amount_out_below_reserve(
                amount_in_with_fee as int,
                scaled_reserve as int,
                reserve_out as int,
            );
        }
        Ok(amount_out as u64)
    }

    /// Input that must be paid to take `amount_out` out of the pool: the
    /// inverse of `get_amount_out`, rounded up by one unit in the pool's favour.
    pub fn get_amount_in(
        amount_out: u64,
        reserve_in: u64,
        reserve_out: u64,
        fee_numerator: u64,
        fee_denominator: u64,
    ) -> (r: Result<u64, AmmError>)
        ensures
            r == amount_in_spec(amount_out, reserve_in, reserve_out, fee_numerator, fee_denominator),
    {
        if amount_out == 0 {
            return Err(AmmError::ZeroAmount);
        }
        if reserve_in == 0 || reserve_out <= amount_out {
            return Err(AmmError::InsufficientLiquidity);
        }
        if fee_numerator > fee_denominator {
            return Err(AmmError::MathOverflow);
        }
        let left: u64 = reserve_out - amount_out;
        let keep: u64 = fee_denominator - fee_numerator;
        proof {
            lemma_product_fits(reserve_in, amount_out);
            lemma_product_fits(left, keep);
        }
        let base: u128 = (reserve_in as u128) * (amount_out as u128);
        let numerator: u128 = match base.checked_mul(fee_denominator as u128) {
            Some(v) => v,
            None => {
                return Err(AmmError::MathOverflow);
            },
        };
        let denominator: u128 = (left as u128) * (keep as u128);
        if denominator == 0 {
            return Err(AmmError::DivisionByZero);
        }
        let quotient: u128 = numerator / denominator;
        if quotient >= 0xffff_ffff_ffff_ffff {
            return Err(AmmError::MathOverflow);
        }
        Ok((quotient + 1) as u64)
    }

    /// Shares minted by the first deposit into a pool: the integer square
    /// root of `amount_a * amount_b`. It always fits in 64 bits.
    pub fn calculate_initial_liquidity(amount_a: u64, amount_b: u64) -> (r: Result<u64, AmmError>)
        ensures
            r is Ok,
            r->Ok_0 == sqrt_spec(amount_a * amount_b),
            is_sqrt(amount_a * amount_b, r->Ok_0 as int),
    {
        proof {
            lemma_product_fits(amount_a, amount_b);
        }
        let product: u128 = (amount_a as u128) * (amount_b as u128);
        let root: u128 = Self::sqrt(product);
        proof {
            lemma_sqrt_of_product_fits(amount_a, amount_b, root as int);
        }
        Ok(root as u64)
    }

    /// Shares for a deposit into a pool that already has liquidity.
    pub fn calculate_liquidity(
        amount_a: u64,
        amount_b: u64,
        reserve_a: u64,
        reserve_b: u64,
        total_supply: u64,
    ) -> (r: Result<u64, AmmError>)
        ensures
            r == liquidity_spec(amount_a, amount_b, reserve_a, reserve_b, total_supply),
    {
        if reserve_a == 0 || reserve_b == 0 {
            return Err(AmmError::InsufficientLiquidity);
        }
        proof {
            lemma_product_fits(amount_a, total_supply);
            lemma_product_fits(amount_b, total_supply);
        }
        let liquidity_a: u128 = (amount_a as u128) * (total_supply as u128) / (reserve_a as u128);
        let liquidity_b: u128 = (amount_b as u128) * (total_supply as u128) / (reserve_b as u128);
        let liquidity: u128 = if liquidity_a <= liquidity_b {
            liquidity_a
        } else {
            liquidity_b
        };
        if liquidity > 0xffff_ffff_ffff_ffff {
            return Err(AmmError::MathOverflow);
        }
        Ok(liquidity as u64)
    }

    /// Amounts of both assets that `liquidity` shares redeem.
    pub fn calculate_withdraw_amounts(
        liquidity: u64,
        total_supply: u64,
        reserve_a: u64,
        reserve_b: u64,
    ) -> (r: Result<(u64, u64), AmmError>)
        ensures
            r == withdraw_amounts_spec(liquidity, total_supply, reserve_a, reserve_b),
    {
        if total_supply == 0 {
            return Err(AmmError::InsufficientLiquidity);
        }
        proof {
            lemma_product_fits(liquidity, reserve_a);
            lemma_product_fits(liquidity, reserve_b);
        }
        let amount_a: u128 = (liquidity as u128) * (reserve_a as u128) / (total_supply as u128);
        let amount_b: u128 = (liquidity as u128) * (reserve_b as u128) / (total_supply as u128);
        if amount_a > 0xffff_ffff_ffff_ffff || amount_b > 0xffff_ffff_ffff_ffff {
            return Err(AmmError::MathOverflow);
        }
        Ok((amount_a as u64, amount_b as u64))
    }

    /// Integer square root by Newton's iteration.
    pub fn sqrt(y: u128) -> (r: u128)
        ensures
            is_sqrt(y as int, r as int),
            r == sqrt_spec(y as int),
    {
        let r = Self::newton_sqrt(y);
        proof {
            lemma_sqrt_is(y as int, r as int);
        }
        r
    }

    fn newton_sqrt(y: u128) -> (r: u128)
        ensures
            is_sqrt(y as int, r as int),
    {
        if y < 4 {
            proof {
                assert(0int * 0int == 0 && 1int * 1int == 1 && 2int * 2int == 4) by (nonlinear_arith);
            }
            if y == 0 {
                return 0;
            }
            return 1;
        }
        let mut z: u128 = y;
        let mut x: u128 = y / 2 + 1;
        let ghost mut first: bool = true;
        proof {
            assert((x + 1) * (x + 1) > y && (z + 1) * (z + 1) > y) by (nonlinear_arith)
                requires
                    z == y,
                    2 * x >= y + 1,
                    y >= 4,
            ;
        }
        while x < z
            invariant
                y >= 4,
                0 < x,
                0 < z,
                (x + 1) * (x + 1) > y,
                (z + 1) * (z + 1) > y,
                first ==> z == y && x == y / 2 + 1,
                !first ==> z <= y / 2 + 1 && x == (y / z + z) / 2,
            decreases z,
        {
            proof {
                lemma_newton_step_in_range(y as int, x as int);
                lemma_newton_step_stays_above(y as int, x as int);
                first = false;
            }
            z = x;
            x = (y / x + x) / 2;
        }
        proof {
            lemma_newton_stop(y as int, z as int);
        }
        z
    }

    /// Distance between two values in basis points of the larger one; 10000
    /// when either is zero.
    pub fn calculate_deviation_bps(value1: u64, value2: u64) -> (r: Result<u64, AmmError>)
        ensures
            r == Ok::<u64, AmmError>(deviation_bps_spec(value1, value2) as u64),
            0 <= deviation_bps_spec(value1, value2) <= 10000,
    {
        if value1 == 0 || value2 == 0 {
            return Ok(10000);
        }
        let larger: u128 = if value1 >= value2 { value1 as u128 } else { value2 as u128 };
        let smaller: u128 = if value1 >= value2 { value2 as u128 } else { value1 as u128 };
        let deviation: u128 = (larger - smaller) * 10000 / larger;
        proof {
            lemma_div_bounds((larger - smaller) * 10000, larger as int);
            lemma_div_at_most((larger - smaller) * 10000, larger as int, 10000);
        }
        Ok(deviation as u64)
    }

    /// The share `bps / 10000` of `amount`, rounded down.
    pub fn apply_bps(amount: u64, bps: u64) -> (r: Result<u64, AmmError>)
        ensures
            r == apply_bps_spec(amount, bps),
    {
        proof {
            lemma_product_fits(amount, bps);
        }
        let calculated: u128 = (amount as u128) * (bps as u128) / 10000;
        if calculated > 0xffff_ffff_ffff_ffff {
            return Err(AmmError::MathOverflow);
        }
        Ok(calculated as u64)
    }
}

/// A number has one integer square root.
pub proof fn lemma_sqrt_unique(y: int, r1: int, r2: int)
    requires
        is_sqrt(y, r1),
        is_sqrt(y, r2),
    ensures
        r1 == r2,
{
    assert(r1 == r2) by (nonlinear_arith)
        requires
            0 <= r1,
            0 <= r2,
            r1 * r1 <= y < (r1 + 1) * (r1 + 1),
            r2 * r2 <= y < (r2 + 1) * (r2 + 1),
    {
        if r1 < r2 {
            assert((r1 + 1) * (r1 + 1) <= r2 * r2);
        }
        if r2 < r1 {
            assert((r2 + 1) * (r2 + 1) <= r1 * r1);
        }
    }
}

/// Whatever brackets `y` between its square and the next is the square root.
pub proof fn lemma_sqrt_is(y: int, r: int)
    requires
        is_sqrt(y, r),
    ensures
        sqrt_spec(y) == r,
{
    lemma_sqrt_unique(y, r, sqrt_spec(y));
}

/// The square root of a product of two 64-bit values fits in 64 bits.
pub proof fn lemma_sqrt_of_product_fits(a: u64, b: u64, r: int)
    requires
        is_sqrt(a * b, r),
    ensures
        r <= u64::MAX,
{
    lemma_product_fits(a, b);
    assert(r <= 0xffff_ffff_ffff_ffff) by (nonlinear_arith)
        requires
            0 <= r,
            r * r <= 0xffff_ffff_ffff_fffe_0000_0000_0000_0001,
    ;
}

/// While the iterate `x` is not below the root, the next Newton step can be
/// computed in 128 bits and is positive.
proof fn lemma_newton_step_in_range(y: int, x: int)
    requires
        4 <= y <= u128::MAX,
        0 < x <= y / 2 + 1,
        (x + 1) * (x + 1) > y,
    ensures
        y / x + x <= u128::MAX,
        0 < (y / x + x) / 2,
{
    lemma_div_bounds(y, x);
    let q = y / x;
    if x <= 0x1_0000_0000_0000_0000 {
        assert(q <= x + 2) by (nonlinear_arith)
            requires
                q * x <= y,
                y < (x + 1) * (x + 1),
                0 < x,
                0 <= q,
        ;
    } else {
        assert(q < 0x1_0000_0000_0000_0000) by (nonlinear_arith)
            requires
                q * x <= y,
                y <= 0xffff_ffff_ffff_ffff_ffff_ffff_ffff_ffff,
                x > 0x1_0000_0000_0000_0000,
                0 <= q,
        ;
    }
    assert(q + x >= 2) by (nonlinear_arith)
        requires
            y < (q + 1) * x,
            y >= 4,
            0 < x,
            0 <= q,
    ;
}

/// A Newton step from any positive iterate lands on or above the root.
proof fn lemma_newton_step_stays_above(y: int, x: int)
    requires
        0 <= y,
        0 < x,
    ensures
        ((y / x + x) / 2 + 1) * ((y / x + x) / 2 + 1) > y,
{
    lemma_div_bounds(y, x);
    let q = y / x;
    let n = (q + x) / 2;
    assert(2 * n + 1 >= q + x);
    assert((n + 1) * (n + 1) > y) by (nonlinear_arith)
        requires
            2 * n + 2 >= q + x + 1,
            y < (q + 1) * x,
            0 <= q,
            0 < x,
            0 <= n,
    {
        assert((q + 1 + x) * (q + 1 + x) >= 4 * ((q + 1) * x)) by {
            assert((q + 1 + x) * (q + 1 + x) - 4 * ((q + 1) * x) == (q + 1 - x) * (q + 1 - x));
            assert((q + 1 - x) * (q + 1 - x) >= 0);
        }
        assert((2 * n + 2) * (2 * n + 2) >= (q + 1 + x) * (q + 1 + x));
        assert((2 * n + 2) * (2 * n + 2) == 4 * ((n + 1) * (n + 1)));
    }
}

/// An iterate that its own Newton step does not undercut squares to at most
/// `y`.
proof fn lemma_newton_stop(y: int, z: int)
    requires
        0 <= y,
        0 < z,
        (y / z + z) / 2 >= z,
    ensures
        z * z <= y,
{
    lemma_div_bounds(y, z);
    let q = y / z;
    assert(q >= z);
    assert(z * z <= y) by (nonlinear_arith)
        requires
            q * z <= y,
            q >= z,
            0 < z,
    ;
}

/// With a positive scaled input reserve the quotient
/// `net * reserve_out / (scaled_reserve + net)` stays below `reserve_out`.
pub proof fn lemma_amount_out_below_reserve(net: int, scaled_reserve: int, reserve_out: int)
    requires
        0 <= net,
        0 <= scaled_reserve,
        0 < scaled_reserve + net,
        0 < reserve_out,
    ensures
        0 <= net * reserve_out / (scaled_reserve + net) <= reserve_out,
        scaled_reserve > 0 ==> net * reserve_out / (scaled_reserve + net) < reserve_out,
{
    let d = scaled_reserve + net;
    assert(0 <= net * reserve_out <= reserve_out * d) by (nonlinear_arith)
        requires
            0 <= net <= d,
            0 < reserve_out,
    ;
    lemma_div_bounds(net * reserve_out, d);
    lemma_div_at_most(net * reserve_out, d, reserve_out);
    if scaled_reserve > 0 {
        let q = net * reserve_out / d;
        assert(q < reserve_out) by (nonlinear_arith)
            requires
                q * d <= net * reserve_out,
                0 <= net < d,
                0 < reserve_out,
                0 <= q,
        ;
    }
}

} // verus!
