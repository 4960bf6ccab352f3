//! A deposit of both assets for shares of the pool.

use vstd::prelude::*;
use crate::constants::MINIMUM_LIQUIDITY;
use crate::errors::AmmError;
use crate::host::{Clock, Pubkey, TokenAccount, TokenInstruction};
use crate::state::pool::{twap_updated, LiquidityProvider, Pool};
use crate::utils::math::{liquidity_spec, sqrt_spec, AmmMath};

verus! {

/// What a deposit works on.
#[derive(Clone, Copy, Debug, PartialEq, Eq, Structural)]
pub struct AddLiquidity {
    pub pool: Pool,
    /// Address of the pool.
    pub pool_key: Pubkey,
    /// The depositor's position; the zeroed record where it is new.
    pub lp_provider: LiquidityProvider,
    /// Address derivation seed of the position.
    pub lp_provider_bump: u8,
    /// Who deposits.
    pub user: Pubkey,
    pub user_token_a: TokenAccount,
    pub user_token_b: TokenAccount,
    pub token_a_vault: TokenAccount,
    pub token_b_vault: TokenAccount,
    /// The share token.
    pub lp_mint: Pubkey,
    /// The depositor's account of shares.
    pub user_lp_token: TokenAccount,
    pub clock: Clock,
}

/// The account checks that precede a deposit, in the order they are made.
pub open spec fn add_liquidity_constraint_error(ctx: AddLiquidity) -> Option<AmmError> {
    if ctx.user_token_a.mint != ctx.pool.token_a_mint {
        Some(AmmError::TokenMintMismatch)
    } else if ctx.user_token_a.owner != ctx.user {
        Some(AmmError::InvalidAuthority)
    } else if ctx.user_token_b.mint != ctx.pool.token_b_mint {
        Some(AmmError::TokenMintMismatch)
    } else if ctx.user_token_b.owner != ctx.user {
        Some(AmmError::InvalidAuthority)
    } else if ctx.token_a_vault.key != ctx.pool.token_a_vault || ctx.token_b_vault.key
        != ctx.pool.token_b_vault || ctx.lp_mint != ctx.pool.lp_mint {
        Some(AmmError::InvalidPoolConfig)
    } else {
        None
    }
}

/// Shares that a deposit creates: the square root of the product of the
/// amounts for the first deposit, which must reach the locked minimum; the
/// smaller pro-rata claim for a later one.
pub open spec fn shares_minted(pool: Pool, amount_a: u64, amount_b: u64) -> Result<u64, AmmError> {
    if pool.total_lp_supply == 0 {
        if sqrt_spec(amount_a * amount_b) < MINIMUM_LIQUIDITY {
            Err(AmmError::MinimumLiquidityNotMet)
        } else {
            Ok(sqrt_spec(amount_a * amount_b) as u64)
        }
    } else {
        liquidity_spec(amount_a, amount_b, pool.reserve_a, pool.reserve_b, pool.total_lp_supply)
    }
}

/// Shares credited to the depositor: all that were minted, less the minimum
/// that the first deposit locks for ever.
pub open spec fn shares_credited(pool: Pool, minted: u64) -> int {
    if pool.total_lp_supply == 0 {
        minted - MINIMUM_LIQUIDITY
    } else {
        minted as int
    }
}

/// The pool with a deposit booked.
pub open spec fn deposit_booked(pool: Pool, amount_a: u64, amount_b: u64, minted: u64) -> Pool {
    Pool {
        reserve_a: (pool.reserve_a + amount_a) as u64,
        reserve_b: (pool.reserve_b + amount_b) as u64,
        total_lp_supply: (pool.total_lp_supply + minted) as u64,
        ..pool
    }
}

/// The position after `credited` shares have been added; a position without
/// shares is opened first.
pub open spec fn position_credited(
    ctx: AddLiquidity,
    amount_a: u64,
    amount_b: u64,
    credited: int,
) -> LiquidityProvider {
    let opened = if ctx.lp_provider.lp_token_amount == 0 {
        LiquidityProvider {
            owner: ctx.user,
            pool: ctx.pool_key,
            initial_deposit_a: amount_a,
            initial_deposit_b: amount_b,
            created_at: ctx.clock.unix_timestamp,
            bump: ctx.lp_provider_bump,
            ..ctx.lp_provider
        }
    } else {
        ctx.lp_provider
    };
    LiquidityProvider {
        lp_token_amount: (ctx.lp_provider.lp_token_amount + credited) as u64,
        ..opened
    }
}

/// The custody requests of a deposit: both assets from the depositor into
/// the vaults, then the credited shares to the depositor.
pub open spec fn add_liquidity_requests(
    ctx: AddLiquidity,
    amount_a: u64,
    amount_b: u64,
    credited: u64,
) -> Seq<TokenInstruction> {
    seq![
        TokenInstruction::Transfer {
            from: ctx.user_token_a.key,
            to: ctx.token_a_vault.key,
            amount: amount_a,
        },
        TokenInstruction::Transfer {
            from: ctx.user_token_b.key,
            to: ctx.token_b_vault.key,
            amount: amount_b,
        },
        TokenInstruction::MintTo { mint: ctx.lp_mint, to: ctx.user_lp_token.key, amount: credited },
    ]
}

/// What a deposit does: the accounts afterwards and the custody requests, or
/// the error with which it is rejected.
pub open spec fn add_liquidity_spec(
    ctx: AddLiquidity,
    amount_a: u64,
    amount_b: u64,
    min_liquidity: u64,
) -> Result<(AddLiquidity, Seq<TokenInstruction>), AmmError> {
    let minted = shares_minted(ctx.pool, amount_a, amount_b);
    if add_liquidity_constraint_error(ctx) is Some {
        Err(add_liquidity_constraint_error(ctx)->Some_0)
    } else if ctx.pool.is_paused {
        Err(AmmError::PoolPaused)
    } else if amount_a == 0 || amount_b == 0 {
        Err(AmmError::ZeroAmount)
    } else if minted is Err {
        Err(minted->Err_0)
    } else {
        let credited = shares_credited(ctx.pool, minted->Ok_0);
        let timed = twap_updated(
            deposit_booked(ctx.pool, amount_a, amount_b, minted->Ok_0),
            ctx.clock.unix_timestamp,
        );
        if minted->Ok_0 < min_liquidity {
            Err(AmmError::SlippageExceeded)
        } else if ctx.pool.reserve_a + amount_a > u64::MAX || ctx.pool.reserve_b + amount_b
            > u64::MAX || ctx.pool.total_lp_supply + minted->Ok_0 > u64::MAX
            || ctx.lp_provider.lp_token_amount + credited > u64::MAX {
            Err(AmmError::MathOverflow)
        } else if timed is Err {
            Err(timed->Err_0)
        } else {
            Ok(
                (
                    AddLiquidity {
                        pool: timed->Ok_0,
                        lp_provider: position_credited(ctx, amount_a, amount_b, credited),
                        ..ctx
                    },
                    add_liquidity_requests(ctx, amount_a, amount_b, credited as u64),
                ),
            )
        }
    }
}

/// Deposits `amount_a` and `amount_b` for at least `min_liquidity` shares.
///
/// The first deposit mints the square root of the product of the amounts and
/// locks `MINIMUM_LIQUIDITY` of it for ever; the share supply counts the
/// locked part, the depositor is credited the rest. A paused pool rejects
/// the deposit. A deposit that is rejected changes nothing.
pub fn handler(ctx: &mut AddLiquidity, amount_a: u64, amount_b: u64, min_liquidity: u64) -> (r:
    Result<Vec<TokenInstruction>, AmmError>)
    ensures
        r is Ok ==> add_liquidity_spec(*old(ctx), amount_a, amount_b, min_liquidity) == Ok::<
            (AddLiquidity, Seq<TokenInstruction>),
            AmmError,
        >((*final(ctx), r->Ok_0@)),
        r is Err ==> add_liquidity_spec(*old(ctx), amount_a, amount_b, min_liquidity) == Err::<
            (AddLiquidity, Seq<TokenInstruction>),
            AmmError,
        >(r->Err_0) && *final(ctx) == *old(ctx),
        old(ctx).pool.is_paused ==> r is Err,
        old(ctx).pool.is_paused && add_liquidity_constraint_error(*old(ctx)) is None ==> r
            == Err::<Vec<TokenInstruction>, AmmError>(AmmError::PoolPaused),
        r is Ok ==> final(ctx).pool.total_lp_supply - old(ctx).pool.total_lp_supply == final(ctx).lp_provider.lp_token_amount - old(ctx).lp_provider.lp_token_amount + if old(
            ctx,
        ).pool.total_lp_supply == 0 {
            MINIMUM_LIQUIDITY as int
        } else {
            0
        },
        r is Ok && old(ctx).pool.wf() ==> final(ctx).pool.wf(),
{
    if ctx.user_token_a.mint != ctx.pool.token_a_mint {
        return Err(AmmError::TokenMintMismatch);
    }
    if ctx.user_token_a.owner != ctx.user {
        return Err(AmmError::InvalidAuthority);
    }
    if ctx.user_token_b.mint != ctx.pool.token_b_mint {
        return Err(AmmError::TokenMintMismatch);
    }
    if ctx.user_token_b.owner != ctx.user {
        return Err(AmmError::InvalidAuthority);
    }
    if ctx.token_a_vault.key != ctx.pool.token_a_vault || ctx.token_b_vault.key
        != ctx.pool.token_b_vault || ctx.lp_mint != ctx.pool.lp_mint {
        return Err(AmmError::InvalidPoolConfig);
    }
    if ctx.pool.is_paused {
        return Err(AmmError::PoolPaused);
    }
    if amount_a == 0 || amount_b == 0 {
        return Err(AmmError::ZeroAmount);
    }
    let first: bool = ctx.pool.total_lp_supply == 0;
    let minted: u64 = if first {
        let initial_liquidity: u64 = match AmmMath::calculate_initial_liquidity(amount_a, amount_b) {
            Ok(v) => v,
            Err(e) => {
                return Err(e);
            },
        };
        if initial_liquidity < MINIMUM_LIQUIDITY {
            return Err(AmmError::MinimumLiquidityNotMet);
        }
        initial_liquidity
    } else {
        match AmmMath::calculate_liquidity(
            amount_a,
            amount_b,
            ctx.pool.reserve_a,
            ctx.pool.reserve_b,
            ctx.pool.total_lp_supply,
        ) {
            Ok(v) => v,
            Err(e) => {
                return Err(e);
            },
        }
    };
    let credited: u64 = if first {
        minted - MINIMUM_LIQUIDITY
    } else {
        minted
    };
    if minted < min_liquidity {
        return Err(AmmError::SlippageExceeded);
    }
    let reserve_a: u64 = match ctx.pool.reserve_a.checked_add(amount_a) {
        Some(v) => v,
        None => {
            return Err(AmmError::MathOverflow);
        },
    };
    let reserve_b: u64 = match ctx.pool.reserve_b.checked_add(amount_b) {
        Some(v) => v,
        None => {
            return Err(AmmError::MathOverflow);
        },
    };
    let total_lp_supply: u64 = match ctx.pool.total_lp_supply.checked_add(minted) {
        Some(v) => v,
        None => {
            return Err(AmmError::MathOverflow);
        },
    };
    let lp_token_amount: u64 = match ctx.lp_provider.lp_token_amount.checked_add(credited) {
        Some(v) => v,
        None => {
            return Err(AmmError::MathOverflow);
        },
    };
    let mut pool: Pool = ctx.pool;
    pool.reserve_a = reserve_a;
    pool.reserve_b = reserve_b;
    pool.total_lp_supply = total_lp_supply;
    match pool.update_twap(ctx.clock.unix_timestamp) {
        Ok(()) => {},
        Err(e) => {
            return Err(e);
        },
    }
    let mut lp_provider: LiquidityProvider = ctx.lp_provider;
    if lp_provider.lp_token_amount == 0 {
        lp_provider.owner = ctx.user;
        lp_provider.pool = ctx.pool_key;
        lp_provider.initial_deposit_a = amount_a;
        lp_provider.initial_deposit_b = amount_b;
        lp_provider.created_at = ctx.clock.unix_timestamp;
        lp_provider.bump = ctx.lp_provider_bump;
    }
    lp_provider.lp_token_amount = lp_token_amount;
    ctx.pool = pool;
    ctx.lp_provider = lp_provider;
    let mut requests: Vec<TokenInstruction> = Vec::new();
    requests.push(
        TokenInstruction::Transfer {
            from: ctx.user_token_a.key,
            to: ctx.token_a_vault.key,
            amount: amount_a,
        },
    );
    requests.push(
        TokenInstruction::Transfer {
            from: ctx.user_token_b.key,
            to: ctx.token_b_vault.key,
            amount: amount_b,
        },
    );
    requests.push(
        TokenInstruction::MintTo { mint: ctx.lp_mint, to: ctx.user_lp_token.key, amount: credited },
    );
    assert(requests@ =~= add_liquidity_requests(*old(ctx), amount_a, amount_b, credited));
    Ok(requests)
}

} // verus!
