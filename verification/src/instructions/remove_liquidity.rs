//! A withdrawal: shares are burned for their part of both reserves.

use vstd::prelude::*;
use crate::errors::AmmError;
use crate::host::{Clock, Pubkey, TokenAccount, TokenInstruction};
use crate::state::pool::{twap_updated, LiquidityProvider, Pool};
use crate::utils::arith::{lemma_div_exact, lemma_product_fits};
use crate::utils::math::{withdraw_amounts_spec, AmmMath};

verus! {

/// What a withdrawal works on.
#[derive(Clone, Copy, Debug, PartialEq, Eq, Structural)]
pub struct RemoveLiquidity {
    pub pool: Pool,
    /// The withdrawer's position.
    pub lp_provider: LiquidityProvider,
    /// Who withdraws.
    pub user: Pubkey,
    pub user_token_a: TokenAccount,
    pub user_token_b: TokenAccount,
    pub token_a_vault: TokenAccount,
    pub token_b_vault: TokenAccount,
    /// The share token.
    pub lp_mint: Pubkey,
    /// The withdrawer's account of shares.
    pub user_lp_token: TokenAccount,
    pub clock: Clock,
}

/// The account checks that precede a withdrawal, in the order they are made.
pub open spec fn remove_liquidity_constraint_error(ctx: RemoveLiquidity) -> Option<AmmError> {
    if ctx.lp_provider.owner != ctx.user {
        Some(AmmError::InvalidAuthority)
    } else if ctx.user_token_a.mint != ctx.pool.token_a_mint {
        Some(AmmError::TokenMintMismatch)
    } else if ctx.user_token_a.owner != ctx.user {
        Some(AmmError::InvalidAuthority)
    } else if ctx.user_token_b.mint != ctx.pool.token_b_mint {
        Some(AmmError::TokenMintMismatch)
    } else if ctx.user_token_b.owner != ctx.user {
        Some(AmmError::InvalidAuthority)
    } else if ctx.token_a_vault.key != ctx.pool.token_a_vault || ctx.token_b_vault.key
        != ctx.pool.token_b_vault || ctx.lp_mint != ctx.pool.lp_mint {
        Some(AmmError::InvalidPoolConfig)
    } else if ctx.user_lp_token.mint != ctx.lp_mint {
        Some(AmmError::TokenMintMismatch)
    } else if ctx.user_lp_token.owner != ctx.user {
        Some(AmmError::InvalidAuthority)
    } else {
        None
    }
}

/// The pool with a withdrawal booked.
pub open spec fn withdrawal_booked(pool: Pool, liquidity: u64, amount_a: u64, amount_b: u64) -> Pool {
    Pool {
        reserve_a: (pool.reserve_a - amount_a) as u64,
        reserve_b: (pool.reserve_b - amount_b) as u64,
        total_lp_supply: (pool.total_lp_supply - liquidity) as u64,
        ..pool
    }
}

/// The custody requests of a withdrawal: the shares are burned first, then
/// both assets leave the vaults.
pub open spec fn remove_liquidity_requests(
    ctx: RemoveLiquidity,
    liquidity: u64,
    amount_a: u64,
    amount_b: u64,
) -> Seq<TokenInstruction> {
    seq![
        TokenInstruction::Burn { mint: ctx.lp_mint, from: ctx.user_lp_token.key, amount: liquidity },
        TokenInstruction::Transfer {
            from: ctx.token_a_vault.key,
            to: ctx.user_token_a.key,
            amount: amount_a,
        },
        TokenInstruction::Transfer {
            from: ctx.token_b_vault.key,
            to: ctx.user_token_b.key,
            amount: amount_b,
        },
    ]
}

/// What a withdrawal does: the accounts afterwards and the custody requests,
/// or the error with which it is rejected.
pub open spec fn remove_liquidity_spec(
    ctx: RemoveLiquidity,
    liquidity_amount: u64,
    min_amount_a: u64,
    min_amount_b: u64,
) -> Result<(RemoveLiquidity, Seq<TokenInstruction>), AmmError> {
    let amounts = withdraw_amounts_spec(
        liquidity_amount,
        ctx.pool.total_lp_supply,
        ctx.pool.reserve_a,
        ctx.pool.reserve_b,
    );
    if remove_liquidity_constraint_error(ctx) is Some {
        Err(remove_liquidity_constraint_error(ctx)->Some_0)
    } else if ctx.pool.is_paused {
        Err(AmmError::PoolPaused)
    } else if liquidity_amount == 0 {
        Err(AmmError::ZeroAmount)
    } else if ctx.lp_provider.lp_token_amount < liquidity_amount {
        Err(AmmError::InsufficientLiquidity)
    } else if amounts is Err {
        Err(amounts->Err_0)
    } else {
        let (amount_a, amount_b) = amounts->Ok_0;
        let timed = twap_updated(
            withdrawal_booked(ctx.pool, liquidity_amount, amount_a, amount_b),
            ctx.clock.unix_timestamp,
        );
        if amount_a < min_amount_a || amount_b < min_amount_b {
            Err(AmmError::SlippageExceeded)
        } else if amount_a > ctx.pool.reserve_a || amount_b > ctx.pool.reserve_b
            || liquidity_amount > ctx.pool.total_lp_supply {
            Err(AmmError::MathOverflow)
        } else if timed is Err {
            Err(timed->Err_0)
        } else {
            Ok(
                (
                    RemoveLiquidity {
                        pool: timed->Ok_0,
                        lp_provider: LiquidityProvider {
                            lp_token_amount: (ctx.lp_provider.lp_token_amount
                                - liquidity_amount) as u64,
                            ..ctx.lp_provider
                        },
                        ..ctx
                    },
                    remove_liquidity_requests(ctx, liquidity_amount, amount_a, amount_b),
                ),
            )
        }
    }
}

/// Burns `liquidity_amount` shares for `liquidity_amount * reserve /
/// total_lp_supply` of each reserve, rounded down, at least `min_amount_a`
/// and `min_amount_b`.
///
/// A paused pool rejects the withdrawal. A withdrawal that is rejected
/// changes nothing.
pub fn handler(
    ctx: &mut RemoveLiquidity,
    liquidity_amount: u64,
    min_amount_a: u64,
    min_amount_b: u64,
) -> (r: Result<Vec<TokenInstruction>, AmmError>)
    ensures
        r is Ok ==> remove_liquidity_spec(*old(ctx), liquidity_amount, min_amount_a, min_amount_b)
            == Ok::<(RemoveLiquidity, Seq<TokenInstruction>), AmmError>((*final(ctx), r->Ok_0@)),
        r is Err ==> remove_liquidity_spec(*old(ctx), liquidity_amount, min_amount_a, min_amount_b)
            == Err::<(RemoveLiquidity, Seq<TokenInstruction>), AmmError>(r->Err_0) && *final(ctx)
            == *old(ctx),
        old(ctx).pool.is_paused ==> r is Err,
        old(ctx).pool.is_paused && remove_liquidity_constraint_error(*old(ctx)) is None ==> r
            == Err::<Vec<TokenInstruction>, AmmError>(AmmError::PoolPaused),
        r is Ok ==> {
            &&& old(ctx).pool.reserve_a - final(ctx).pool.reserve_a == liquidity_amount * old(
                ctx,
            ).pool.reserve_a / (old(ctx).pool.total_lp_supply as int)
            &&& old(ctx).pool.reserve_b - final(ctx).pool.reserve_b == liquidity_amount * old(
                ctx,
            ).pool.reserve_b / (old(ctx).pool.total_lp_supply as int)
        },
        r is Ok ==> old(ctx).pool.total_lp_supply - final(ctx).pool.total_lp_supply
            == liquidity_amount && old(ctx).lp_provider.lp_token_amount - final(ctx).lp_provider.lp_token_amount == liquidity_amount,
        r is Ok && old(ctx).pool.wf() ==> final(ctx).pool.wf(),
{
    if ctx.lp_provider.owner != ctx.user {
        return Err(AmmError::InvalidAuthority);
    }
    if ctx.user_token_a.mint != ctx.pool.token_a_mint {
        return Err(AmmError::TokenMintMismatch);
    }
    if ctx.user_token_a.owner != ctx.user {
        return Err(AmmError::InvalidAuthority);
    }
    if ctx.user_token_b.mint != ctx.pool.token_b_mint {
        return Err(AmmError::TokenMintMismatch);
    }
    if ctx.user_token_b.owner != ctx.user {
        return Err(AmmError::InvalidAuthority);
    }
    if ctx.token_a_vault.key != ctx.pool.token_a_vault || ctx.token_b_vault.key
        != ctx.pool.token_b_vault || ctx.lp_mint != ctx.pool.lp_mint {
        return Err(AmmError::InvalidPoolConfig);
    }
    if ctx.user_lp_token.mint != ctx.lp_mint {
        return Err(AmmError::TokenMintMismatch);
    }
    if ctx.user_lp_token.owner != ctx.user {
        return Err(AmmError::InvalidAuthority);
    }
    if ctx.pool.is_paused {
        return Err(AmmError::PoolPaused);
    }
    if liquidity_amount == 0 {
        return Err(AmmError::ZeroAmount);
    }
    if ctx.lp_provider.lp_token_amount < liquidity_amount {
        return Err(AmmError::InsufficientLiquidity);
    }
    let (amount_a, amount_b) = match AmmMath::calculate_withdraw_amounts(
        liquidity_amount,
        ctx.pool.total_lp_supply,
        ctx.pool.reserve_a,
        ctx.pool.reserve_b,
    ) {
        Ok(v) => v,
        Err(e) => {
            return Err(e);
        },
    };
    if amount_a < min_amount_a || amount_b < min_amount_b {
        return Err(AmmError::SlippageExceeded);
    }
    if amount_a > ctx.pool.reserve_a || amount_b > ctx.pool.reserve_b || liquidity_amount
        > ctx.pool.total_lp_supply {
        return Err(AmmError::MathOverflow);
    }
    let mut pool: Pool = ctx.pool;
    pool.reserve_a = ctx.pool.reserve_a - amount_a;
    pool.reserve_b = ctx.pool.reserve_b - amount_b;
    pool.total_lp_supply = ctx.pool.total_lp_supply - liquidity_amount;
    proof {
        lemma_withdrawal_keeps_pool_well_formed(ctx.pool, liquidity_amount);
    }
    match pool.update_twap(ctx.clock.unix_timestamp) {
        Ok(()) => {},
        Err(e) => {
            return Err(e);
        },
    }
    ctx.pool = pool;
    ctx.lp_provider.lp_token_amount = ctx.lp_provider.lp_token_amount - liquidity_amount;
    let mut requests: Vec<TokenInstruction> = Vec::new();
    requests.push(
        TokenInstruction::Burn { mint: ctx.lp_mint, from: ctx.user_lp_token.key, amount: liquidity_amount },
    );
    requests.push(
        TokenInstruction::Transfer {
            from: ctx.token_a_vault.key,
            to: ctx.user_token_a.key,
            amount: amount_a,
        },
    );
    requests.push(
        TokenInstruction::Transfer {
            from: ctx.token_b_vault.key,
            to: ctx.user_token_b.key,
            amount: amount_b,
        },
    );
    assert(requests@ =~= remove_liquidity_requests(
        *old(ctx),
        liquidity_amount,
        amount_a,
        amount_b,
    ));
    Ok(requests)
}

/// Redeeming the whole supply returns both reserves exactly; redeeming less
/// leaves something of every reserve that was not empty.
pub proof fn lemma_withdraw_amounts(
    liquidity: u64,
    total_supply: u64,
    reserve_a: u64,
    reserve_b: u64,
)
    requires
        0 < liquidity <= total_supply,
    ensures
        withdraw_amounts_spec(liquidity, total_supply, reserve_a, reserve_b) is Ok,
        ({
            let (amount_a, amount_b) = withdraw_amounts_spec(
                liquidity,
                total_supply,
                reserve_a,
                reserve_b,
            )->Ok_0;
            &&& amount_a == liquidity * reserve_a / (total_supply as int)
            &&& amount_b == liquidity * reserve_b / (total_supply as int)
            &&& amount_a <= reserve_a
            &&& amount_b <= reserve_b
            &&& liquidity == total_supply ==> amount_a == reserve_a && amount_b == reserve_b
            &&& liquidity < total_supply && reserve_a > 0 ==> amount_a < reserve_a
            &&& liquidity < total_supply && reserve_b > 0 ==> amount_b < reserve_b
        }),
{
    lemma_share_of_reserve(liquidity, total_supply, reserve_a);
    lemma_share_of_reserve(liquidity, total_supply, reserve_b);
}

/// The part `liquidity / total_supply` of one reserve, rounded down, is the
/// whole reserve for the whole supply and less than a positive reserve for
/// less than the supply.
proof fn lemma_share_of_reserve(liquidity: u64, total_supply: u64, reserve: u64)
    requires
        0 < liquidity <= total_supply,
    ensures
        0 <= liquidity * reserve / (total_supply as int) <= reserve,
        liquidity == total_supply ==> liquidity * reserve / (total_supply as int) == reserve,
        liquidity < total_supply && reserve > 0 ==> liquidity * reserve / (total_supply as int)
            < reserve,
{
    let l = liquidity as int;
    let s = total_supply as int;
    let x = reserve as int;
    lemma_product_fits(liquidity, reserve);
    let q = l * x / s;
    assert(0 <= q && q * s <= l * x < (q + 1) * s) by (nonlinear_arith)
        requires
            q == l * x / s,
            0 <= l * x,
            0 < s,
    ;
    assert(q <= x) by (nonlinear_arith)
        requires
            q * s <= l * x,
            0 < l <= s,
            0 <= x,
            0 <= q,
    ;
    if liquidity == total_supply {
        assert(l * x == x * s) by (nonlinear_arith)
            requires
                l == s,
        ;
        lemma_div_exact(x, s);
    } else if reserve > 0 {
        assert(q < x) by (nonlinear_arith)
            requires
                q * s <= l * x,
                0 < l < s,
                0 < x,
                0 <= q,
        ;
    }
}

/// Booking a withdrawal of at most the supply keeps a well-formed pool
/// well-formed.
proof fn lemma_withdrawal_keeps_pool_well_formed(pool: Pool, liquidity: u64)
    requires
        0 < liquidity <= pool.total_lp_supply,
        withdraw_amounts_spec(liquidity, pool.total_lp_supply, pool.reserve_a, pool.reserve_b) is Ok,
    ensures
        ({
            let (amount_a, amount_b) = withdraw_amounts_spec(
                liquidity,
                pool.total_lp_supply,
                pool.reserve_a,
                pool.reserve_b,
            )->Ok_0;
            pool.wf() ==> withdrawal_booked(pool, liquidity, amount_a, amount_b).wf()
        }),
{
    lemma_withdraw_amounts(liquidity, pool.total_lp_supply, pool.reserve_a, pool.reserve_b);
}

/// A withdrawal within its bounds succeeds and pays pro rata. Where the
/// accounts fit an unpaused pool, the position holds the `liquidity_amount`
/// shares, the pool has issued that many, both shares of the reserves reach
/// the minimums asked for and the price accumulators can take the time
/// passed, the withdrawal burns the shares first, then pays exactly
/// `liquidity_amount * reserve / total_lp_supply` of each reserve, rounded
/// down, and books reserves, supply and position; fee and pause flag stay.
pub proof fn lemma_withdrawal_pays_pro_rata(
    ctx: RemoveLiquidity,
    liquidity_amount: u64,
    min_amount_a: u64,
    min_amount_b: u64,
)
    requires
        remove_liquidity_constraint_error(ctx) is None,
        !ctx.pool.is_paused,
        0 < liquidity_amount <= ctx.lp_provider.lp_token_amount,
        liquidity_amount <= ctx.pool.total_lp_supply,
        liquidity_amount * ctx.pool.reserve_a / (ctx.pool.total_lp_supply as int) >= min_amount_a,
        liquidity_amount * ctx.pool.reserve_b / (ctx.pool.total_lp_supply as int) >= min_amount_b,
        twap_updated(
            withdrawal_booked(
                ctx.pool,
                liquidity_amount,
                (liquidity_amount * ctx.pool.reserve_a / (ctx.pool.total_lp_supply as int)) as u64,
                (liquidity_amount * ctx.pool.reserve_b / (ctx.pool.total_lp_supply as int)) as u64,
            ),
            ctx.clock.unix_timestamp,
        ) is Ok,
    ensures
        remove_liquidity_spec(ctx, liquidity_amount, min_amount_a, min_amount_b) is Ok,
        ({
            let (after, requests) = remove_liquidity_spec(
                ctx,
                liquidity_amount,
                min_amount_a,
                min_amount_b,
            )->Ok_0;
            let amount_a = liquidity_amount * ctx.pool.reserve_a / (ctx.pool.total_lp_supply as int);
            let amount_b = liquidity_amount * ctx.pool.reserve_b / (ctx.pool.total_lp_supply as int);
            &&& requests == seq![
                TokenInstruction::Burn {
                    mint: ctx.lp_mint,
                    from: ctx.user_lp_token.key,
                    amount: liquidity_amount,
                },
                TokenInstruction::Transfer {
                    from: ctx.token_a_vault.key,
                    to: ctx.user_token_a.key,
                    amount: amount_a as u64,
                },
                TokenInstruction::Transfer {
                    from: ctx.token_b_vault.key,
                    to: ctx.user_token_b.key,
                    amount: amount_b as u64,
                },
            ]
            &&& after.pool.reserve_a == ctx.pool.reserve_a - amount_a
            &&& after.pool.reserve_b == ctx.pool.reserve_b - amount_b
            &&& after.pool.total_lp_supply == ctx.pool.total_lp_supply - liquidity_amount
            &&& after.lp_provider.lp_token_amount == ctx.lp_provider.lp_token_amount
                - liquidity_amount
            &&& after.pool.fee_numerator == ctx.pool.fee_numerator
            &&& after.pool.fee_denominator == ctx.pool.fee_denominator
            &&& after.pool.is_paused == ctx.pool.is_paused
        }),
{
    lemma_withdraw_amounts(
        liquidity_amount,
        ctx.pool.total_lp_supply,
        ctx.pool.reserve_a,
        ctx.pool.reserve_b,
    );
}

} // verus!
