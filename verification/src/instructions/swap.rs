//! A swap of one asset of a pool for the other.

use vstd::prelude::*;
use crate::errors::AmmError;
use crate::host::{Clock, PriceFeed, Pubkey, TokenAccount, TokenInstruction};
use crate::state::pool::{twap_updated, Pool};
use crate::utils::curve::lemma_swap_keeps_product;
use crate::utils::math::{amount_out_spec, AmmMath};
use crate::utils::oracle::{swap_price_check, OracleHelper};

verus! {

/// What a swap works on.
#[derive(Clone, Copy, Debug, PartialEq, Eq, Structural)]
pub struct Swap {
    pub pool: Pool,
    /// Who swaps.
    pub user: Pubkey,
    /// The user's account of the asset paid in.
    pub user_token_in: TokenAccount,
    /// The user's account of the asset taken out.
    pub user_token_out: TokenAccount,
    /// The pool's vault of the asset paid in.
    pub pool_token_in: TokenAccount,
    /// The pool's vault of the asset taken out.
    pub pool_token_out: TokenAccount,
    /// Sample of the feed of asset A.
    pub oracle_a: PriceFeed,
    /// Sample of the feed of asset B.
    pub oracle_b: PriceFeed,
    pub clock: Clock,
}

/// The reserve that a swap in the given direction pays into.
pub open spec fn reserve_in(pool: Pool, is_a_to_b: bool) -> u64 {
    if is_a_to_b {
        pool.reserve_a
    } else {
        pool.reserve_b
    }
}

/// The reserve that a swap in the given direction takes from.
pub open spec fn reserve_out(pool: Pool, is_a_to_b: bool) -> u64 {
    if is_a_to_b {
        pool.reserve_b
    } else {
        pool.reserve_a
    }
}

/// The fee shown for a swap: `amount_in * fee_numerator / fee_denominator`.
/// It is a record only; the price already contains it.
pub open spec fn swap_fee(pool: Pool, amount_in: u64) -> int {
    amount_in * pool.fee_numerator / (pool.fee_denominator as int)
}

/// The counters of the input side cannot take the swap.
pub open spec fn swap_overflows(pool: Pool, amount_in: u64, is_a_to_b: bool) -> bool {
    let volume = if is_a_to_b { pool.total_volume_a } else { pool.total_volume_b };
    let fees = if is_a_to_b { pool.total_fees_a } else { pool.total_fees_b };
    ||| amount_in * pool.fee_numerator > u64::MAX
    ||| reserve_in(pool, is_a_to_b) + amount_in > u64::MAX
    ||| volume + amount_in > u64::MAX
    ||| fees + swap_fee(pool, amount_in) > u64::MAX
}

/// The pool with a swap booked: the input added to its reserve, volume and
/// fee counters, the output taken from the other reserve.
pub open spec fn swap_booked(pool: Pool, amount_in: u64, amount_out: u64, is_a_to_b: bool) -> Pool {
    let fee = swap_fee(pool, amount_in);
    if is_a_to_b {
        Pool {
            reserve_a: (pool.reserve_a + amount_in) as u64,
            reserve_b: (pool.reserve_b - amount_out) as u64,
            total_volume_a: (pool.total_volume_a + amount_in) as u64,
            total_fees_a: (pool.total_fees_a + fee) as u64,
            ..pool
        }
    } else {
        Pool {
            reserve_b: (pool.reserve_b + amount_in) as u64,
            reserve_a: (pool.reserve_a - amount_out) as u64,
            total_volume_b: (pool.total_volume_b + amount_in) as u64,
            total_fees_b: (pool.total_fees_b + fee) as u64,
            ..pool
        }
    }
}

/// The pool after a swap of `amount_in` for `amount_out` has been settled:
/// the swap booked and the price accumulators brought up to `now` over the
/// new reserves; `MathOverflow` where a counter cannot take the swap.
pub open spec fn swap_settled(
    pool: Pool,
    amount_in: u64,
    amount_out: u64,
    is_a_to_b: bool,
    now: i64,
) -> Result<Pool, AmmError> {
    if swap_overflows(pool, amount_in, is_a_to_b) {
        Err(AmmError::MathOverflow)
    } else {
        twap_updated(swap_booked(pool, amount_in, amount_out, is_a_to_b), now)
    }
}

/// One swap against one pool: the pool afterwards and the amount bought.
///
/// The curve quotes the output; it must reach `minimum_amount_out` and pass
/// the price-feed guard; the swap is booked and the price accumulators are
/// brought up to `now` over the new reserves.
pub open spec fn swap_step(
    pool: Pool,
    amount_in: u64,
    minimum_amount_out: u64,
    is_a_to_b: bool,
    oracle_a: PriceFeed,
    oracle_b: PriceFeed,
    now: i64,
) -> Result<(Pool, u64), AmmError> {
    let quoted = amount_out_spec(
        amount_in,
        reserve_in(pool, is_a_to_b),
        reserve_out(pool, is_a_to_b),
        pool.fee_numerator,
        pool.fee_denominator,
    );
    if quoted is Err {
        Err(quoted->Err_0)
    } else {
        let amount_out = quoted->Ok_0;
        let guard = swap_price_check(
            amount_in,
            amount_out,
            oracle_a,
            oracle_b,
            pool.oracle_max_deviation_bps,
        );
        let settled = swap_settled(pool, amount_in, amount_out, is_a_to_b, now);
        if amount_out < minimum_amount_out {
            Err(AmmError::SlippageExceeded)
        } else if guard is Err {
            Err(guard->Err_0)
        } else if settled is Err {
            Err(settled->Err_0)
        } else {
            Ok((settled->Ok_0, amount_out))
        }
    }
}

/// Carries out `swap_step` on `pool`. On an error the pool is unchanged.
pub fn execute_swap_step(
    pool: &mut Pool,
    amount_in: u64,
    minimum_amount_out: u64,
    is_a_to_b: bool,
    oracle_a: &PriceFeed,
    oracle_b: &PriceFeed,
    now: i64,
) -> (r: Result<u64, AmmError>)
    ensures
        r is Ok ==> swap_step(
            *old(pool),
            amount_in,
            minimum_amount_out,
            is_a_to_b,
            *oracle_a,
            *oracle_b,
            now,
        ) == Ok::<(Pool, u64), AmmError>((*final(pool), r->Ok_0)),
        r is Err ==> swap_step(
            *old(pool),
            amount_in,
            minimum_amount_out,
            is_a_to_b,
            *oracle_a,
            *oracle_b,
            now,
        ) == Err::<(Pool, u64), AmmError>(r->Err_0) && *final(pool) == *old(pool),
{
    let (reserve_in, reserve_out) = if is_a_to_b {
        (pool.reserve_a, pool.reserve_b)
    } else {
        (pool.reserve_b, pool.reserve_a)
    };
    let amount_out: u64 = match AmmMath::get_amount_out(
        amount_in,
        reserve_in,
        reserve_out,
        pool.fee_numerator,
        pool.fee_denominator,
    ) {
        Ok(v) => v,
        Err(e) => {
            return Err(e);
        },
    };
    if amount_out < minimum_amount_out {
        return Err(AmmError::SlippageExceeded);
    }
    match OracleHelper::validate_swap_price(
        amount_in,
        amount_out,
        oracle_a,
        oracle_b,
        pool.oracle_max_age,
        pool.oracle_max_deviation_bps,
        is_a_to_b,
    ) {
        Ok(()) => {},
        Err(e) => {
            return Err(e);
        },
    }
    proof {
        lemma_quote_needs_a_denominator(
            amount_in,
            reserve_in,
            reserve_out,
            pool.fee_numerator,
            pool.fee_denominator,
        );
    }
    match settle_swap(pool, amount_in, amount_out, is_a_to_b, now) {
        Ok(()) => Ok(amount_out),
        Err(e) => Err(e),
    }
}

/// A quote exists only for a positive fee denominator, and it is less than
/// the reserve it is taken from.
pub proof fn lemma_quote_needs_a_denominator(
    amount_in: u64,
    reserve_in: u64,
    reserve_out: u64,
    fee_numerator: u64,
    fee_denominator: u64,
)
    requires
        amount_out_spec(amount_in, reserve_in, reserve_out, fee_numerator, fee_denominator) is Ok,
    ensures
        fee_denominator > 0,
        amount_out_spec(amount_in, reserve_in, reserve_out, fee_numerator, fee_denominator)->Ok_0
            < reserve_out,
{
    lemma_swap_keeps_product(amount_in, reserve_in, reserve_out, fee_numerator, fee_denominator);
    assert(fee_denominator > 0) by (nonlinear_arith)
        requires
            reserve_in * fee_denominator + amount_in * (fee_denominator - fee_numerator) != 0,
            fee_numerator <= fee_denominator,
    ;
}

/// Settles a swap of `amount_in` for `amount_out` on `pool`: books it and
/// brings the price accumulators up to `now`. On an error the pool is
/// unchanged.
pub(crate) fn settle_swap(
    pool: &mut Pool,
    amount_in: u64,
    amount_out: u64,
    is_a_to_b: bool,
    now: i64,
) -> (r: Result<(), AmmError>)
    requires
        old(pool).fee_denominator > 0,
        amount_out <= reserve_out(*old(pool), is_a_to_b),
    ensures
        r is Ok ==> swap_settled(*old(pool), amount_in, amount_out, is_a_to_b, now) == Ok::<
            Pool,
            AmmError,
        >(*final(pool)),
        r is Err ==> swap_settled(*old(pool), amount_in, amount_out, is_a_to_b, now) == Err::<
            Pool,
            AmmError,
        >(r->Err_0) && *final(pool) == *old(pool),
{
    let scaled_fee: u64 = match amount_in.checked_mul(pool.fee_numerator) {
        Some(v) => v,
        None => {
            return Err(AmmError::MathOverflow);
        },
    };
    let fee_amount: u64 = scaled_fee / pool.fee_denominator;
    let mut booked: Pool = *pool;
    if is_a_to_b {
        let reserve: u64 = match pool.reserve_a.checked_add(amount_in) {
            Some(v) => v,
            None => {
                return Err(AmmError::MathOverflow);
            },
        };
        let volume: u64 = match pool.total_volume_a.checked_add(amount_in) {
            Some(v) => v,
            None => {
                return Err(AmmError::MathOverflow);
            },
        };
        let fees: u64 = match pool.total_fees_a.checked_add(fee_amount) {
            Some(v) => v,
            None => {
                return Err(AmmError::MathOverflow);
            },
        };
        booked.reserve_a = reserve;
        booked.reserve_b = pool.reserve_b - amount_out;
        booked.total_volume_a = volume;
        booked.total_fees_a = fees;
    } else {
        let reserve: u64 = match pool.reserve_b.checked_add(amount_in) {
            Some(v) => v,
            None => {
                return Err(AmmError::MathOverflow);
            },
        };
        let volume: u64 = match pool.total_volume_b.checked_add(amount_in) {
            Some(v) => v,
            None => {
                return Err(AmmError::MathOverflow);
            },
        };
        let fees: u64 = match pool.total_fees_b.checked_add(fee_amount) {
            Some(v) => v,
            None => {
                return Err(AmmError::MathOverflow);
            },
        };
        booked.reserve_b = reserve;
        booked.reserve_a = pool.reserve_a - amount_out;
        booked.total_volume_b = volume;
        booked.total_fees_b = fees;
    }
    match booked.update_twap(now) {
        Ok(()) => {},
        Err(e) => {
            return Err(e);
        },
    }
    *pool = booked;
    Ok(())
}

/// A swap step that succeeds moves exactly the quoted amounts, never shrinks
/// the product of the reserves, and keeps a well-formed pool well-formed.
pub proof fn lemma_swap_step_keeps_product(
    pool: Pool,
    amount_in: u64,
    minimum_amount_out: u64,
    is_a_to_b: bool,
    oracle_a: PriceFeed,
    oracle_b: PriceFeed,
    now: i64,
)
    requires
        swap_step(pool, amount_in, minimum_amount_out, is_a_to_b, oracle_a, oracle_b, now) is Ok,
    ensures
        ({
            let (after, amount_out) = swap_step(
                pool,
                amount_in,
                minimum_amount_out,
                is_a_to_b,
                oracle_a,
                oracle_b,
                now,
            )->Ok_0;
            &&& amount_in > 0
            &&& minimum_amount_out <= amount_out < reserve_out(pool, is_a_to_b)
            &&& reserve_in(after, is_a_to_b) == reserve_in(pool, is_a_to_b) + amount_in
            &&& reserve_out(after, is_a_to_b) == reserve_out(pool, is_a_to_b) - amount_out
            &&& after.reserve_a * after.reserve_b >= pool.reserve_a * pool.reserve_b
            &&& after.total_lp_supply == pool.total_lp_supply
            &&& pool.wf() ==> after.wf()
        }),
{
    let rin = reserve_in(pool, is_a_to_b);
    let rout = reserve_out(pool, is_a_to_b);
    lemma_swap_keeps_product(amount_in, rin, rout, pool.fee_numerator, pool.fee_denominator);
    let amount_out = amount_out_spec(
        amount_in,
        rin,
        rout,
        pool.fee_numerator,
        pool.fee_denominator,
    )->Ok_0;
    let booked = swap_booked(pool, amount_in, amount_out, is_a_to_b);
    let after = twap_updated(booked, now)->Ok_0;
    assert(after.reserve_a == booked.reserve_a && after.reserve_b == booked.reserve_b);
    if !is_a_to_b {
        assert((rout - amount_out) * (rin + amount_in) == (rin + amount_in) * (rout - amount_out))
            by (nonlinear_arith);
        assert(rout * rin == rin * rout) by (nonlinear_arith);
    }
}

/// The account checks that precede a swap, in the order they are made; the
/// first that fails decides the error.
pub open spec fn swap_constraint_error(ctx: Swap) -> Option<AmmError> {
    if ctx.user_token_in.owner != ctx.user || ctx.user_token_out.owner != ctx.user {
        Some(AmmError::InvalidAuthority)
    } else if ctx.pool_token_in.key != ctx.pool.token_a_vault && ctx.pool_token_in.key
        != ctx.pool.token_b_vault {
        Some(AmmError::InvalidPoolConfig)
    } else if ctx.pool_token_out.key != ctx.pool.token_a_vault && ctx.pool_token_out.key
        != ctx.pool.token_b_vault {
        Some(AmmError::InvalidPoolConfig)
    } else if ctx.oracle_a.key != ctx.pool.oracle_a || ctx.oracle_b.key != ctx.pool.oracle_b {
        Some(AmmError::InvalidOracle)
    } else {
        None
    }
}

/// The accounts must fit the direction: the user's accounts hold the assets
/// paid in and taken out, and the vaults are the pool's vaults of those
/// assets.
pub open spec fn swap_direction_error(ctx: Swap, is_a_to_b: bool) -> Option<AmmError> {
    let mint_in = if is_a_to_b { ctx.pool.token_a_mint } else { ctx.pool.token_b_mint };
    let mint_out = if is_a_to_b { ctx.pool.token_b_mint } else { ctx.pool.token_a_mint };
    let vault_in = if is_a_to_b { ctx.pool.token_a_vault } else { ctx.pool.token_b_vault };
    let vault_out = if is_a_to_b { ctx.pool.token_b_vault } else { ctx.pool.token_a_vault };
    if ctx.user_token_in.mint != mint_in || ctx.user_token_out.mint != mint_out {
        Some(AmmError::TokenMintMismatch)
    } else if ctx.pool_token_in.key != vault_in || ctx.pool_token_out.key != vault_out {
        Some(AmmError::InvalidPoolConfig)
    } else {
        None
    }
}

/// The custody requests of a swap: the input from the user to the pool, then
/// the output from the pool to the user.
pub open spec fn swap_requests(ctx: Swap, amount_in: u64, amount_out: u64) -> Seq<
    TokenInstruction,
> {
    seq![
        TokenInstruction::Transfer {
            from: ctx.user_token_in.key,
            to: ctx.pool_token_in.key,
            amount: amount_in,
        },
        TokenInstruction::Transfer {
            from: ctx.pool_token_out.key,
            to: ctx.user_token_out.key,
            amount: amount_out,
        },
    ]
}

/// What a swap does: the accounts afterwards and the custody requests, or
/// the error with which it is rejected.
pub open spec fn swap_spec(ctx: Swap, amount_in: u64, minimum_amount_out: u64, is_a_to_b: bool)
    -> Result<(Swap, Seq<TokenInstruction>), AmmError> {
    let step = swap_step(
        ctx.pool,
        amount_in,
        minimum_amount_out,
        is_a_to_b,
        ctx.oracle_a,
        ctx.oracle_b,
        ctx.clock.unix_timestamp,
    );
    if swap_constraint_error(ctx) is Some {
        Err(swap_constraint_error(ctx)->Some_0)
    } else if ctx.pool.is_paused {
        Err(AmmError::PoolPaused)
    } else if amount_in == 0 {
        Err(AmmError::ZeroAmount)
    } else if swap_direction_error(ctx, is_a_to_b) is Some {
        Err(swap_direction_error(ctx, is_a_to_b)->Some_0)
    } else if step is Err {
        Err(step->Err_0)
    } else {
        Ok((Swap { pool: step->Ok_0.0, ..ctx }, swap_requests(ctx, amount_in, step->Ok_0.1)))
    }
}

/// Swaps `amount_in` of one asset for at least `minimum_amount_out` of the
/// other, from A to B where `is_a_to_b` and from B to A otherwise.
///
/// A paused pool rejects the swap. A swap that succeeds never shrinks the
/// product of the reserves. A swap that is rejected changes nothing.
pub fn handler(ctx: &mut Swap, amount_in: u64, minimum_amount_out: u64, is_a_to_b: bool) -> (r:
    Result<Vec<TokenInstruction>, AmmError>)
    ensures
        r is Ok ==> swap_spec(*old(ctx), amount_in, minimum_amount_out, is_a_to_b) == Ok::<
            (Swap, Seq<TokenInstruction>),
            AmmError,
        >((*final(ctx), r->Ok_0@)),
        r is Err ==> swap_spec(*old(ctx), amount_in, minimum_amount_out, is_a_to_b) == Err::<
            (Swap, Seq<TokenInstruction>),
            AmmError,
        >(r->Err_0) && *final(ctx) == *old(ctx),
        old(ctx).pool.is_paused ==> r is Err,
        old(ctx).pool.is_paused && swap_constraint_error(*old(ctx)) is None ==> r == Err::<
            Vec<TokenInstruction>,
            AmmError,
        >(AmmError::PoolPaused),
        r is Ok ==> final(ctx).pool.reserve_a * final(ctx).pool.reserve_b >= old(
            ctx,
        ).pool.reserve_a * old(ctx).pool.reserve_b,
        r is Ok && old(ctx).pool.wf() ==> final(ctx).pool.wf(),
{
    if ctx.user_token_in.owner != ctx.user || ctx.user_token_out.owner != ctx.user {
        return Err(AmmError::InvalidAuthority);
    }
    if ctx.pool_token_in.key != ctx.pool.token_a_vault && ctx.pool_token_in.key
        != ctx.pool.token_b_vault {
        return Err(AmmError::InvalidPoolConfig);
    }
    if ctx.pool_token_out.key != ctx.pool.token_a_vault && ctx.pool_token_out.key
        != ctx.pool.token_b_vault {
        return Err(AmmError::InvalidPoolConfig);
    }
    if ctx.oracle_a.key != ctx.pool.oracle_a || ctx.oracle_b.key != ctx.pool.oracle_b {
        return Err(AmmError::InvalidOracle);
    }
    if ctx.pool.is_paused {
        return Err(AmmError::PoolPaused);
    }
    if amount_in == 0 {
        return Err(AmmError::ZeroAmount);
    }
    let (mint_in, mint_out, vault_in, vault_out) = if is_a_to_b {
        (
            ctx.pool.token_a_mint,
            ctx.pool.token_b_mint,
            ctx.pool.token_a_vault,
            ctx.pool.token_b_vault,
        )
    } else {
        (
            ctx.pool.token_b_mint,
            ctx.pool.token_a_mint,
            ctx.pool.token_b_vault,
            ctx.pool.token_a_vault,
        )
    };
    if ctx.user_token_in.mint != mint_in || ctx.user_token_out.mint != mint_out {
        return Err(AmmError::TokenMintMismatch);
    }
    if ctx.pool_token_in.key != vault_in || ctx.pool_token_out.key != vault_out {
        return Err(AmmError::InvalidPoolConfig);
    }
    let mut pool: Pool = ctx.pool;
    let amount_out: u64 = match execute_swap_step(
        &mut pool,
        amount_in,
        minimum_amount_out,
        is_a_to_b,
        &ctx.oracle_a,
        &ctx.oracle_b,
        ctx.clock.unix_timestamp,
    ) {
        Ok(v) => v,
        Err(e) => {
            return Err(e);
        },
    };
    proof {
        lemma_swap_step_keeps_product(
            ctx.pool,
            amount_in,
            minimum_amount_out,
            is_a_to_b,
            ctx.oracle_a,
            ctx.oracle_b,
            ctx.clock.unix_timestamp,
        );
    }
    ctx.pool = pool;
    let mut requests: Vec<TokenInstruction> = Vec::new();
    requests.push(
        TokenInstruction::Transfer {
            from: ctx.user_token_in.key,
            to: ctx.pool_token_in.key,
            amount: amount_in,
        },
    );
    requests.push(
        TokenInstruction::Transfer {
            from: ctx.pool_token_out.key,
            to: ctx.user_token_out.key,
            amount: amount_out,
        },
    );
    assert(requests@ =~= swap_requests(*old(ctx), amount_in, amount_out));
    Ok(requests)
}

} // verus!
