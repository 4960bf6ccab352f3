use alioth_amm::constants::MINIMUM_LIQUIDITY;
use alioth_amm::errors::AmmError;
use alioth_amm::host::{Clock, Pubkey, TokenAccount, TokenInstruction};
use alioth_amm::instructions::{add_liquidity, remove_liquidity, AddLiquidity, RemoveLiquidity};
use alioth_amm::state::{LiquidityProvider, Pool};

fn lp_key(n: u128) -> Pubkey {
    Pubkey::new(0, n)
}

fn lp_pool(reserve_a: u64, reserve_b: u64, total_lp_supply: u64) -> Pool {
    Pool {
        authority: lp_key(1),
        token_a_mint: lp_key(10),
        token_b_mint: lp_key(11),
        token_a_vault: lp_key(20),
        token_b_vault: lp_key(21),
        lp_mint: lp_key(30),
        reserve_a,
        reserve_b,
        total_lp_supply,
        fee_numerator: 3,
        fee_denominator: 1000,
        oracle_a: lp_key(40),
        oracle_b: lp_key(41),
        oracle_max_age: 300,
        oracle_max_deviation_bps: 500,
        last_update_timestamp: 1000,
        ..Pool::default()
    }
}

fn deposit_into(pool: Pool, position: LiquidityProvider) -> AddLiquidity {
    let user = lp_key(2);
    AddLiquidity {
        pool,
        pool_key: lp_key(5),
        lp_provider: position,
        lp_provider_bump: 254,
        user,
        user_token_a: TokenAccount { key: lp_key(50), mint: lp_key(10), owner: user },
        user_token_b: TokenAccount { key: lp_key(51), mint: lp_key(11), owner: user },
        token_a_vault: TokenAccount { key: lp_key(20), mint: lp_key(10), owner: lp_key(5) },
        token_b_vault: TokenAccount { key: lp_key(21), mint: lp_key(11), owner: lp_key(5) },
        lp_mint: lp_key(30),
        user_lp_token: TokenAccount { key: lp_key(52), mint: lp_key(30), owner: user },
        clock: Clock { slot: 5, unix_timestamp: 1010 },
    }
}

fn withdraw_from(pool: Pool, position: LiquidityProvider) -> RemoveLiquidity {
    let d = deposit_into(pool, position);
    RemoveLiquidity {
        pool,
        lp_provider: position,
        user: d.user,
        user_token_a: d.user_token_a,
        user_token_b: d.user_token_b,
        token_a_vault: d.token_a_vault,
        token_b_vault: d.token_b_vault,
        lp_mint: d.lp_mint,
        user_lp_token: d.user_lp_token,
        clock: d.clock,
    }
}

fn position_of(amount: u64) -> LiquidityProvider {
    LiquidityProvider {
        owner: lp_key(2),
        pool: lp_key(5),
        lp_token_amount: amount,
        initial_deposit_a: 1,
        initial_deposit_b: 2,
        created_at: 77,
        bump: 3,
    }
}

#[test]
fn first_deposit_locks_the_minimum() {
    let mut ctx = deposit_into(lp_pool(0, 0, 0), LiquidityProvider::default());
    let requests = add_liquidity::handler(&mut ctx, 10_000, 10_000, 0).unwrap();
    assert_eq!(MINIMUM_LIQUIDITY, 1000);
    assert_eq!(
        requests,
        vec![
            TokenInstruction::Transfer { from: lp_key(50), to: lp_key(20), amount: 10_000 },
            TokenInstruction::Transfer { from: lp_key(51), to: lp_key(21), amount: 10_000 },
            TokenInstruction::MintTo { mint: lp_key(30), to: lp_key(52), amount: 9000 },
        ]
    );
    assert_eq!(ctx.pool.total_lp_supply, 10_000);
    assert_eq!(ctx.lp_provider.lp_token_amount, 9000);
    assert_eq!((ctx.pool.reserve_a, ctx.pool.reserve_b), (10_000, 10_000));
    // The position is opened.
    assert_eq!(ctx.lp_provider.owner, lp_key(2));
    assert_eq!(ctx.lp_provider.pool, lp_key(5));
    assert_eq!(ctx.lp_provider.initial_deposit_a, 10_000);
    assert_eq!(ctx.lp_provider.initial_deposit_b, 10_000);
    assert_eq!(ctx.lp_provider.created_at, 1010);
    assert_eq!(ctx.lp_provider.bump, 254);
}

#[test]
fn first_deposit_must_reach_the_minimum() {
    let mut ctx = deposit_into(lp_pool(0, 0, 0), LiquidityProvider::default());
    let before = ctx;
    assert_eq!(
        add_liquidity::handler(&mut ctx, 999, 1000, 0),
        Err(AmmError::MinimumLiquidityNotMet)
    );
    assert_eq!(ctx, before);
    // Exactly the minimum is accepted and credits nothing.
    let requests = add_liquidity::handler(&mut ctx, 1000, 1000, 0).unwrap();
    assert_eq!(
        requests[2],
        TokenInstruction::MintTo { mint: lp_key(30), to: lp_key(52), amount: 0 }
    );
    assert_eq!(ctx.pool.total_lp_supply, 1000);
    assert_eq!(ctx.lp_provider.lp_token_amount, 0);
}

#[test]
fn later_deposit_mints_the_smaller_claim() {
    let mut ctx = deposit_into(lp_pool(10_000, 20_000, 10_000), position_of(9000));
    let requests = add_liquidity::handler(&mut ctx, 500, 100, 50).unwrap();
    assert_eq!(
        requests[2],
        TokenInstruction::MintTo { mint: lp_key(30), to: lp_key(52), amount: 50 }
    );
    assert_eq!(ctx.pool.total_lp_supply, 10_050);
    assert_eq!((ctx.pool.reserve_a, ctx.pool.reserve_b), (10_500, 20_100));
    assert_eq!(ctx.lp_provider.lp_token_amount, 9050);
    // A position that holds shares keeps what it was opened with.
    assert_eq!(ctx.lp_provider.initial_deposit_a, 1);
    assert_eq!(ctx.lp_provider.created_at, 77);
    assert_eq!(ctx.lp_provider.bump, 3);
    // The accumulators advance over the new reserves: 10 seconds.
    assert_eq!(ctx.pool.cumulative_price_a, 20_100 * 10 / 10_500);
    assert_eq!(ctx.pool.cumulative_price_b, 10_500 * 10 / 20_100);
}

#[test]
fn deposit_rejects_too_few_shares() {
    let mut ctx = deposit_into(lp_pool(10_000, 20_000, 10_000), position_of(9000));
    let before = ctx;
    assert_eq!(add_liquidity::handler(&mut ctx, 500, 100, 51), Err(AmmError::SlippageExceeded));
    assert_eq!(ctx, before);
    // The first deposit is measured by what it mints, the locked part included.
    let mut first = deposit_into(lp_pool(0, 0, 0), LiquidityProvider::default());
    assert_eq!(
        add_liquidity::handler(&mut first, 10_000, 10_000, 10_001),
        Err(AmmError::SlippageExceeded)
    );
    assert!(add_liquidity::handler(&mut first, 10_000, 10_000, 10_000).is_ok());
}

#[test]
fn paused_pool_rejects_a_deposit() {
    let mut pool = lp_pool(10_000, 20_000, 10_000);
    pool.is_paused = true;
    let mut ctx = deposit_into(pool, position_of(9000));
    let before = ctx;
    assert_eq!(add_liquidity::handler(&mut ctx, 500, 1000, 0), Err(AmmError::PoolPaused));
    assert_eq!(ctx, before);
}

#[test]
fn deposit_rejections() {
    let good = deposit_into(lp_pool(10_000, 20_000, 10_000), position_of(9000));

    let mut ctx = good;
    assert_eq!(add_liquidity::handler(&mut ctx, 0, 1000, 0), Err(AmmError::ZeroAmount));
    assert_eq!(add_liquidity::handler(&mut ctx, 1000, 0, 0), Err(AmmError::ZeroAmount));

    let mut ctx = good;
    ctx.user_token_a.mint = lp_key(99);
    assert_eq!(add_liquidity::handler(&mut ctx, 5, 5, 0), Err(AmmError::TokenMintMismatch));

    let mut ctx = good;
    ctx.user_token_b.owner = lp_key(99);
    assert_eq!(add_liquidity::handler(&mut ctx, 5, 5, 0), Err(AmmError::InvalidAuthority));

    let mut ctx = good;
    ctx.token_b_vault.key = lp_key(99);
    assert_eq!(add_liquidity::handler(&mut ctx, 5, 5, 0), Err(AmmError::InvalidPoolConfig));

    let mut ctx = good;
    ctx.lp_mint = lp_key(99);
    assert_eq!(add_liquidity::handler(&mut ctx, 5, 5, 0), Err(AmmError::InvalidPoolConfig));

    let mut ctx = deposit_into(lp_pool(0, 20_000, 10_000), position_of(9000));
    assert_eq!(add_liquidity::handler(&mut ctx, 5, 5, 0), Err(AmmError::InsufficientLiquidity));

    let mut ctx = deposit_into(lp_pool(u64::MAX, 20_000, 10_000), position_of(9000));
    let before = ctx;
    assert_eq!(add_liquidity::handler(&mut ctx, 5, 5, 0), Err(AmmError::MathOverflow));
    assert_eq!(ctx, before);
}

#[test]
fn withdrawal_pays_the_pro_rata_share() {
    let mut ctx = withdraw_from(lp_pool(5000, 7000, 1000), position_of(400));
    let requests = remove_liquidity::handler(&mut ctx, 100, 500, 700).unwrap();
    assert_eq!(
        requests,
        vec![
            TokenInstruction::Burn { mint: lp_key(30), from: lp_key(52), amount: 100 },
            TokenInstruction::Transfer { from: lp_key(20), to: lp_key(50), amount: 500 },
            TokenInstruction::Transfer { from: lp_key(21), to: lp_key(51), amount: 700 },
        ]
    );
    assert_eq!((ctx.pool.reserve_a, ctx.pool.reserve_b), (4500, 6300));
    assert_eq!(ctx.pool.total_lp_supply, 900);
    assert_eq!(ctx.lp_provider.lp_token_amount, 300);
    assert_eq!(ctx.pool.last_update_timestamp, 1010);
}

#[test]
fn withdrawal_rounds_down() {
    let mut ctx = withdraw_from(lp_pool(10, 20, 3), position_of(3));
    let requests = remove_liquidity::handler(&mut ctx, 1, 0, 0).unwrap();
    assert_eq!(
        requests[1],
        TokenInstruction::Transfer { from: lp_key(20), to: lp_key(50), amount: 3 }
    );
    assert_eq!(
        requests[2],
        TokenInstruction::Transfer { from: lp_key(21), to: lp_key(51), amount: 6 }
    );
    assert_eq!((ctx.pool.reserve_a, ctx.pool.reserve_b, ctx.pool.total_lp_supply), (7, 14, 2));
}

#[test]
fn withdrawing_the_whole_supply_empties_the_pool() {
    let mut ctx = withdraw_from(lp_pool(12_345, 67_890, 777), position_of(777));
    let requests = remove_liquidity::handler(&mut ctx, 777, 12_345, 67_890).unwrap();
    assert_eq!(
        requests[1],
        TokenInstruction::Transfer { from: lp_key(20), to: lp_key(50), amount: 12_345 }
    );
    assert_eq!(
        requests[2],
        TokenInstruction::Transfer { from: lp_key(21), to: lp_key(51), amount: 67_890 }
    );
    assert_eq!((ctx.pool.reserve_a, ctx.pool.reserve_b, ctx.pool.total_lp_supply), (0, 0, 0));
    assert_eq!(ctx.lp_provider.lp_token_amount, 0);
}

#[test]
fn the_locked_minimum_cannot_be_withdrawn() {
    let mut ctx = deposit_into(lp_pool(0, 0, 0), LiquidityProvider::default());
    add_liquidity::handler(&mut ctx, 10_000, 10_000, 0).unwrap();
    let mut out = withdraw_from(ctx.pool, ctx.lp_provider);
    assert_eq!(
        remove_liquidity::handler(&mut out, 10_000, 0, 0),
        Err(AmmError::InsufficientLiquidity)
    );
    remove_liquidity::handler(&mut out, 9000, 0, 0).unwrap();
    assert_eq!((out.pool.reserve_a, out.pool.reserve_b), (1000, 1000));
    assert_eq!(out.pool.total_lp_supply, 1000);
    assert_eq!(out.lp_provider.lp_token_amount, 0);
}

#[test]
fn paused_pool_rejects_a_withdrawal() {
    let mut pool = lp_pool(5000, 7000, 1000);
    pool.is_paused = true;
    let mut ctx = withdraw_from(pool, position_of(400));
    let before = ctx;
    assert_eq!(remove_liquidity::handler(&mut ctx, 100, 0, 0), Err(AmmError::PoolPaused));
    assert_eq!(ctx, before);
}

#[test]
fn withdrawal_rejections() {
    let good = withdraw_from(lp_pool(5000, 7000, 1000), position_of(400));

    let mut ctx = good;
    assert_eq!(remove_liquidity::handler(&mut ctx, 0, 0, 0), Err(AmmError::ZeroAmount));
    assert_eq!(
        remove_liquidity::handler(&mut ctx, 401, 0, 0),
        Err(AmmError::InsufficientLiquidity)
    );
    assert_eq!(remove_liquidity::handler(&mut ctx, 100, 501, 0), Err(AmmError::SlippageExceeded));
    assert_eq!(remove_liquidity::handler(&mut ctx, 100, 0, 701), Err(AmmError::SlippageExceeded));
    assert_eq!(ctx, good);

    let mut ctx = good;
    ctx.lp_provider.owner = lp_key(99);
    assert_eq!(remove_liquidity::handler(&mut ctx, 100, 0, 0), Err(AmmError::InvalidAuthority));

    let mut ctx = good;
    ctx.user_token_b.mint = lp_key(99);
    assert_eq!(remove_liquidity::handler(&mut ctx, 100, 0, 0), Err(AmmError::TokenMintMismatch));

    let mut ctx = good;
    ctx.token_a_vault.key = lp_key(99);
    assert_eq!(remove_liquidity::handler(&mut ctx, 100, 0, 0), Err(AmmError::InvalidPoolConfig));

    let mut ctx = good;
    ctx.user_lp_token.mint = lp_key(99);
    assert_eq!(remove_liquidity::handler(&mut ctx, 100, 0, 0), Err(AmmError::TokenMintMismatch));

    let mut ctx = good;
    ctx.user_lp_token.owner = lp_key(99);
    assert_eq!(remove_liquidity::handler(&mut ctx, 100, 0, 0), Err(AmmError::InvalidAuthority));

    let mut ctx = withdraw_from(lp_pool(5000, 7000, 0), position_of(400));
    assert_eq!(
        remove_liquidity::handler(&mut ctx, 100, 0, 0),
        Err(AmmError::InsufficientLiquidity)
    );

    // More shares than the pool has issued.
    let mut ctx = withdraw_from(lp_pool(5000, 7000, 100), position_of(400));
    let before = ctx;
    assert_eq!(remove_liquidity::handler(&mut ctx, 200, 0, 0), Err(AmmError::MathOverflow));
    assert_eq!(ctx, before);
}
