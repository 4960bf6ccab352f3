use alioth_amm::errors::AmmError;
use alioth_amm::host::{Clock, PriceFeed, Pubkey, TokenAccount, TokenInstruction};
use alioth_amm::instructions::multi_hop::handler;
use alioth_amm::instructions::{swap, MultiHopSwap, Swap};
use alioth_amm::state::Pool;

fn hop_key(n: u128) -> Pubkey {
    Pubkey::new(4, n)
}

fn hop_feed(price: i64) -> PriceFeed {
    PriceFeed { key: hop_key(40), price, confidence: 1_000_000, exponent: -8 }
}

fn hop_pool(n: u128, mint_a: u128, mint_b: u128, reserve_a: u64, reserve_b: u64) -> Pool {
    Pool {
        token_a_mint: hop_key(mint_a),
        token_b_mint: hop_key(mint_b),
        token_a_vault: hop_key(100 * n + 1),
        token_b_vault: hop_key(100 * n + 2),
        reserve_a,
        reserve_b,
        total_lp_supply: 1_000_000,
        fee_numerator: 3,
        fee_denominator: 1000,
        oracle_a: hop_key(40),
        oracle_b: hop_key(40),
        oracle_max_age: 300,
        oracle_max_deviation_bps: 500,
        last_update_timestamp: 1000,
        ..Pool::default()
    }
}

fn hop_account(key: u128, mint: u128) -> TokenAccount {
    TokenAccount { key: hop_key(key), mint: hop_key(mint), owner: hop_key(2) }
}

fn hop_vault(key: u128, mint: u128) -> TokenAccount {
    TokenAccount { key: hop_key(key), mint: hop_key(mint), owner: hop_key(3) }
}

// Asset 10 -> 11 through pool 1, 11 -> 12 through pool 2, 12 -> 13 through pool 3,
// which holds asset 13 as its A and asset 12 as its B.
fn three_pool_route() -> MultiHopSwap {
    MultiHopSwap {
        user: hop_key(2),
        pool_1: hop_pool(1, 10, 11, 1_000_000, 1_000_000),
        pool_2: Some(hop_pool(2, 11, 12, 2_000_000, 1_000_000)),
        pool_3: Some(hop_pool(3, 13, 12, 500_000, 500_000)),
        user_token_in: hop_account(50, 10),
        user_token_out: hop_account(59, 13),
        intermediate_token_1: Some(hop_account(51, 11)),
        intermediate_token_2: Some(hop_account(52, 12)),
        pool_1_vault_in: hop_vault(101, 10),
        pool_1_vault_out: hop_vault(102, 11),
        pool_2_vault_in: Some(hop_vault(201, 11)),
        pool_2_vault_out: Some(hop_vault(202, 12)),
        pool_3_vault_in: Some(hop_vault(302, 12)),
        pool_3_vault_out: Some(hop_vault(301, 13)),
        oracle_1_a: hop_feed(100_000_000),
        oracle_1_b: hop_feed(100_000_000),
        oracle_2_a: Some(hop_feed(200_000_000)),
        oracle_2_b: Some(hop_feed(100_000_000)),
        oracle_3_a: Some(hop_feed(100_000_000)),
        oracle_3_b: Some(hop_feed(100_000_000)),
        clock: Clock { slot: 5, unix_timestamp: 1010 },
    }
}

fn single_swap(
    pool: Pool,
    from: TokenAccount,
    to: TokenAccount,
    vault_in: TokenAccount,
    vault_out: TokenAccount,
    oracle_a: PriceFeed,
    oracle_b: PriceFeed,
) -> Swap {
    Swap {
        pool,
        user: hop_key(2),
        user_token_in: from,
        user_token_out: to,
        pool_token_in: vault_in,
        pool_token_out: vault_out,
        oracle_a,
        oracle_b,
        clock: Clock { slot: 5, unix_timestamp: 1010 },
    }
}

fn paid_out(requests: &Vec<TokenInstruction>) -> u64 {
    match requests[requests.len() - 1] {
        TokenInstruction::Transfer { amount, .. } => amount,
        _ => panic!("the last request of a swap is a transfer"),
    }
}

#[test]
fn route_of_one_hop_is_a_swap() {
    let mut ctx = three_pool_route();
    ctx.user_token_out = hop_account(59, 11);
    let before = ctx;
    let (output, requests) = handler(&mut ctx, 1000, 990, 1).unwrap();
    assert_eq!(output, 996);
    assert_eq!(
        requests,
        vec![
            TokenInstruction::Transfer { from: hop_key(50), to: hop_key(101), amount: 1000 },
            TokenInstruction::Transfer { from: hop_key(102), to: hop_key(59), amount: 996 },
        ]
    );
    assert_eq!((ctx.pool_1.reserve_a, ctx.pool_1.reserve_b), (1_001_000, 999_004));
    assert_eq!(ctx.pool_1.total_volume_a, 1000);
    assert_eq!(ctx.pool_1.total_fees_a, 3);
    assert_eq!(ctx.pool_2, before.pool_2);
    assert_eq!(ctx.pool_3, before.pool_3);
}

#[test]
fn route_of_two_hops_equals_two_swaps_in_a_row() {
    let mut ctx = three_pool_route();
    ctx.user_token_out = hop_account(59, 12);
    let start = ctx;
    let (output, requests) = handler(&mut ctx, 1000, 0, 2).unwrap();

    let mut first = single_swap(
        start.pool_1,
        start.user_token_in,
        start.intermediate_token_1.unwrap(),
        start.pool_1_vault_in,
        start.pool_1_vault_out,
        start.oracle_1_a,
        start.oracle_1_b,
    );
    // The vault keys of the route are those of the pools, so the single swap accepts them.
    let first_requests = swap::handler(&mut first, 1000, 0, true).unwrap();
    let middle = paid_out(&first_requests);
    let mut second = single_swap(
        start.pool_2.unwrap(),
        start.intermediate_token_1.unwrap(),
        start.user_token_out,
        start.pool_2_vault_in.unwrap(),
        start.pool_2_vault_out.unwrap(),
        start.oracle_2_a.unwrap(),
        start.oracle_2_b.unwrap(),
    );
    let second_requests = swap::handler(&mut second, middle, 0, true).unwrap();

    assert_eq!(middle, 996);
    assert_eq!(output, 496);
    assert_eq!(output, paid_out(&second_requests));
    assert_eq!(ctx.pool_1, first.pool);
    assert_eq!(ctx.pool_2, Some(second.pool));
    assert_eq!(ctx.pool_3, start.pool_3);
    let mut both = first_requests.clone();
    both.extend(second_requests);
    assert_eq!(requests, both);
}

#[test]
fn route_of_three_hops_feeds_each_output_forward() {
    let mut ctx = three_pool_route();
    let (output, requests) = handler(&mut ctx, 1000, 494, 3).unwrap();
    assert_eq!(output, 494);
    assert_eq!(
        requests,
        vec![
            TokenInstruction::Transfer { from: hop_key(50), to: hop_key(101), amount: 1000 },
            TokenInstruction::Transfer { from: hop_key(102), to: hop_key(51), amount: 996 },
            TokenInstruction::Transfer { from: hop_key(51), to: hop_key(201), amount: 996 },
            TokenInstruction::Transfer { from: hop_key(202), to: hop_key(52), amount: 496 },
            TokenInstruction::Transfer { from: hop_key(52), to: hop_key(302), amount: 496 },
            TokenInstruction::Transfer { from: hop_key(301), to: hop_key(59), amount: 494 },
        ]
    );
    assert_eq!((ctx.pool_1.reserve_a, ctx.pool_1.reserve_b), (1_001_000, 999_004));
    let pool_2 = ctx.pool_2.unwrap();
    assert_eq!((pool_2.reserve_a, pool_2.reserve_b), (2_000_996, 999_504));
    assert_eq!((pool_2.total_volume_a, pool_2.total_fees_a), (996, 2));
    // The third pool takes its asset B in and pays its asset A out.
    let pool_3 = ctx.pool_3.unwrap();
    assert_eq!((pool_3.reserve_a, pool_3.reserve_b), (499_506, 500_496));
    assert_eq!((pool_3.total_volume_b, pool_3.total_fees_b), (496, 1));
    assert_eq!(pool_3.total_volume_a, 0);
}

#[test]
fn only_the_end_of_the_route_is_held_to_the_minimum() {
    let mut ctx = three_pool_route();
    let before = ctx;
    // 495 is more than the route pays, although the first two hops pay more than that.
    assert_eq!(handler(&mut ctx, 1000, 495, 3), Err(AmmError::SlippageExceeded));
    assert_eq!(ctx, before);
    assert!(handler(&mut ctx, 1000, 494, 3).is_ok());
}

#[test]
fn route_rejects_a_hop_count_out_of_range() {
    let mut ctx = three_pool_route();
    let before = ctx;
    assert_eq!(handler(&mut ctx, 1000, 0, 0), Err(AmmError::MaxHopsExceeded));
    assert_eq!(handler(&mut ctx, 1000, 0, 4), Err(AmmError::MaxHopsExceeded));
    assert_eq!(handler(&mut ctx, 1000, 0, 255), Err(AmmError::MaxHopsExceeded));
    assert_eq!(handler(&mut ctx, 0, 0, 3), Err(AmmError::ZeroAmount));
    assert_eq!(ctx, before);
}

#[test]
fn route_over_a_paused_pool_is_rejected_whole() {
    for paused in 1..=3 {
        let mut ctx = three_pool_route();
        match paused {
            1 => ctx.pool_1.is_paused = true,
            2 => ctx.pool_2 = Some(Pool { is_paused: true, ..ctx.pool_2.unwrap() }),
            _ => ctx.pool_3 = Some(Pool { is_paused: true, ..ctx.pool_3.unwrap() }),
        }
        let before = ctx;
        assert_eq!(handler(&mut ctx, 1000, 0, 3), Err(AmmError::PoolPaused));
        assert_eq!(ctx, before);
    }
    // A paused pool beyond the end of the route does not matter.
    let mut ctx = three_pool_route();
    ctx.user_token_out = hop_account(59, 12);
    ctx.pool_3 = Some(Pool { is_paused: true, ..ctx.pool_3.unwrap() });
    assert!(handler(&mut ctx, 1000, 0, 2).is_ok());
}

#[test]
fn route_rejects_an_asset_that_a_pool_does_not_trade() {
    let mut ctx = three_pool_route();
    ctx.user_token_in.mint = hop_key(77);
    ctx.pool_1_vault_in.mint = hop_key(77);
    assert_eq!(handler(&mut ctx, 1000, 0, 3), Err(AmmError::InvalidSwapRoute));

    let mut ctx = three_pool_route();
    ctx.pool_1_vault_in.mint = hop_key(11);
    assert_eq!(handler(&mut ctx, 1000, 0, 3), Err(AmmError::InvalidSwapRoute));

    let mut ctx = three_pool_route();
    ctx.intermediate_token_1 = Some(hop_account(51, 77));
    let before = ctx;
    assert_eq!(handler(&mut ctx, 1000, 0, 3), Err(AmmError::InvalidSwapRoute));
    assert_eq!(ctx, before);

    let mut ctx = three_pool_route();
    ctx.intermediate_token_2 = Some(hop_account(52, 77));
    assert_eq!(handler(&mut ctx, 1000, 0, 3), Err(AmmError::InvalidSwapRoute));
}

#[test]
fn route_rejects_missing_accounts() {
    let mut ctx = three_pool_route();
    ctx.pool_2 = None;
    assert_eq!(handler(&mut ctx, 1000, 0, 2), Err(AmmError::InvalidSwapRoute));

    let mut ctx = three_pool_route();
    ctx.intermediate_token_1 = None;
    assert_eq!(handler(&mut ctx, 1000, 0, 2), Err(AmmError::InvalidSwapRoute));

    let mut ctx = three_pool_route();
    ctx.pool_2_vault_out = None;
    assert_eq!(handler(&mut ctx, 1000, 0, 2), Err(AmmError::InvalidSwapRoute));

    let mut ctx = three_pool_route();
    ctx.oracle_2_a = None;
    assert_eq!(handler(&mut ctx, 1000, 0, 2), Err(AmmError::InvalidOracle));

    let mut ctx = three_pool_route();
    ctx.pool_3 = None;
    let before = ctx;
    assert_eq!(handler(&mut ctx, 1000, 0, 3), Err(AmmError::InvalidSwapRoute));
    assert_eq!(ctx, before);

    let mut ctx = three_pool_route();
    ctx.oracle_3_b = None;
    assert_eq!(handler(&mut ctx, 1000, 0, 3), Err(AmmError::InvalidOracle));

    // What a shorter route does not use may be missing.
    let mut ctx = three_pool_route();
    ctx.user_token_out = hop_account(59, 11);
    ctx.pool_2 = None;
    ctx.pool_3 = None;
    ctx.intermediate_token_1 = None;
    ctx.oracle_2_a = None;
    assert!(handler(&mut ctx, 1000, 0, 1).is_ok());
}

#[test]
fn route_applies_the_feed_guard_to_every_hop() {
    let mut ctx = three_pool_route();
    ctx.oracle_2_a = Some(hop_feed(100_000_000));
    let before = ctx;
    assert_eq!(handler(&mut ctx, 1000, 0, 3), Err(AmmError::OraclePriceDeviation));
    assert_eq!(ctx, before);
}

#[test]
fn route_rejects_accounts_of_someone_else() {
    let mut ctx = three_pool_route();
    ctx.user_token_out.owner = hop_key(99);
    assert_eq!(handler(&mut ctx, 1000, 0, 3), Err(AmmError::InvalidAuthority));
    let mut ctx = three_pool_route();
    ctx.intermediate_token_2 = Some(TokenAccount { owner: hop_key(99), ..hop_account(52, 12) });
    assert_eq!(handler(&mut ctx, 1000, 0, 1), Err(AmmError::InvalidAuthority));
}

#[test]
fn route_that_pays_nothing_forward_stops() {
    let mut ctx = three_pool_route();
    ctx.pool_1.oracle_max_deviation_bps = 10_000;
    // One unit in is rounded to nothing out, and nothing cannot be swapped on.
    let before = ctx;
    assert_eq!(handler(&mut ctx, 1, 0, 2), Err(AmmError::ZeroAmount));
    assert_eq!(ctx, before);
}

#[test]
fn a_hop_is_priced_before_its_feeds_and_vaults_are_asked_for() {
    // An empty second pool and a missing feed: the quote fails first.
    let mut ctx = three_pool_route();
    ctx.pool_2 = Some(Pool { reserve_a: 0, reserve_b: 0, ..ctx.pool_2.unwrap() });
    ctx.oracle_2_a = None;
    assert_eq!(handler(&mut ctx, 1000, 0, 3), Err(AmmError::InsufficientLiquidity));

    // A missing feed and a missing vault: the feed is asked for first.
    let mut ctx = three_pool_route();
    ctx.oracle_2_b = None;
    ctx.pool_2_vault_in = None;
    assert_eq!(handler(&mut ctx, 1000, 0, 3), Err(AmmError::InvalidOracle));

    // A rate off the feed and a missing vault: the guard runs first.
    let mut ctx = three_pool_route();
    ctx.oracle_2_a = Some(hop_feed(100_000_000));
    ctx.pool_2_vault_out = None;
    assert_eq!(handler(&mut ctx, 1000, 0, 3), Err(AmmError::OraclePriceDeviation));

    // A missing holding account and counters that are full: the account is asked for first.
    let mut ctx = three_pool_route();
    ctx.intermediate_token_1 = None;
    ctx.pool_1.total_volume_a = u64::MAX;
    let before = ctx;
    assert_eq!(handler(&mut ctx, 1000, 0, 2), Err(AmmError::InvalidSwapRoute));
    assert_eq!(ctx, before);
    ctx.intermediate_token_1 = three_pool_route().intermediate_token_1;
    assert_eq!(handler(&mut ctx, 1000, 0, 2), Err(AmmError::MathOverflow));
}
