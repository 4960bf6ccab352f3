use alioth_amm::errors::AmmError;
use alioth_amm::host::{Clock, PriceFeed, Pubkey, TokenAccount, TokenInstruction};
use alioth_amm::instructions::{
    AddLiquidity, ClaimRewards, FlashLoan, FlashLoanRepay, InitializeFarm, InitializePool,
    MultiHopSwap, PausePool, RemoveLiquidity, Stake, Swap, TransferAuthority, UnpausePool, Unstake,
    UpdateFees, UpdateOracleConfig,
};
use alioth_amm::program;
use alioth_amm::state::{FarmingPool, FlashLoanRecord, LiquidityProvider, Pool, UserStake};

fn at(n: u128) -> Pubkey {
    Pubkey::new(1, n)
}

fn held_by_user(key: u128, mint: u128) -> TokenAccount {
    TokenAccount { key: at(key), mint: at(mint), owner: at(2) }
}

fn held_by_pool(key: u128, mint: u128) -> TokenAccount {
    TokenAccount { key: at(key), mint: at(mint), owner: at(5) }
}

fn sample(key: u128) -> PriceFeed {
    PriceFeed { key: at(key), price: 100_000_000, confidence: 1_000_000, exponent: -8 }
}

fn time(slot: u64) -> Clock {
    Clock { slot, unix_timestamp: 1000 + slot as i64 }
}

fn created_pool() -> Pool {
    let mut ctx = InitializePool {
        pool: Pool::default(),
        pool_bump: 255,
        authority: at(1),
        token_a_mint: at(10),
        token_b_mint: at(11),
        lp_mint: at(30),
        token_a_vault: at(20),
        token_b_vault: at(21),
        oracle_a: at(40),
        oracle_b: at(41),
        clock: time(0),
    };
    program::initialize_pool(&mut ctx, 3, 1000, 300, 500).unwrap();
    ctx.pool
}

fn deposit(pool: Pool, position: LiquidityProvider, slot: u64) -> AddLiquidity {
    AddLiquidity {
        pool,
        pool_key: at(5),
        lp_provider: position,
        lp_provider_bump: 254,
        user: at(2),
        user_token_a: held_by_user(50, 10),
        user_token_b: held_by_user(51, 11),
        token_a_vault: held_by_pool(20, 10),
        token_b_vault: held_by_pool(21, 11),
        lp_mint: at(30),
        user_lp_token: held_by_user(52, 30),
        clock: time(slot),
    }
}

fn swap_of(pool: Pool, slot: u64) -> Swap {
    Swap {
        pool,
        user: at(2),
        user_token_in: held_by_user(50, 10),
        user_token_out: held_by_user(51, 11),
        pool_token_in: held_by_pool(20, 10),
        pool_token_out: held_by_pool(21, 11),
        oracle_a: sample(40),
        oracle_b: sample(41),
        clock: time(slot),
    }
}

fn loan_of(pool: Pool, slot: u64) -> FlashLoan {
    FlashLoan {
        pool,
        pool_key: at(5),
        flash_loan_record: FlashLoanRecord::default(),
        flash_loan_record_bump: 250,
        borrower: at(2),
        borrower_token_a: held_by_user(50, 10),
        borrower_token_b: held_by_user(51, 11),
        token_a_vault: held_by_pool(20, 10),
        token_b_vault: held_by_pool(21, 11),
        clock: time(slot),
    }
}

#[test]
fn a_pool_from_creation_to_withdrawal() {
    let pool = created_pool();
    assert_eq!(pool.last_update_timestamp, 1000);

    let mut first = deposit(pool, LiquidityProvider::default(), 1);
    let requests = program::add_liquidity(&mut first, 1_000_000, 1_000_000, 0).unwrap();
    assert_eq!(
        requests[2],
        TokenInstruction::MintTo { mint: at(30), to: at(52), amount: 999_000 }
    );
    assert_eq!(first.pool.total_lp_supply, 1_000_000);

    let mut trade = swap_of(first.pool, 2);
    program::swap(&mut trade, 1000, 996, true).unwrap();
    assert_eq!((trade.pool.reserve_a, trade.pool.reserve_b), (1_001_000, 999_004));

    let mut loan = loan_of(trade.pool, 3);
    program::flash_loan(&mut loan, 10_000, 0).unwrap();
    let mut repay = FlashLoanRepay {
        pool: loan.pool,
        flash_loan_record: loan.flash_loan_record,
        borrower: loan.borrower,
        borrower_token_a: loan.borrower_token_a,
        borrower_token_b: loan.borrower_token_b,
        token_a_vault: loan.token_a_vault,
        token_b_vault: loan.token_b_vault,
        clock: time(3),
    };
    let requests = program::flash_loan_repay(&mut repay).unwrap();
    assert_eq!(
        requests,
        vec![TokenInstruction::Transfer { from: at(50), to: at(20), amount: 10_009 }]
    );
    assert_eq!(repay.pool.reserve_a, 1_001_009);

    let mut out = RemoveLiquidity {
        pool: repay.pool,
        lp_provider: first.lp_provider,
        user: at(2),
        user_token_a: held_by_user(50, 10),
        user_token_b: held_by_user(51, 11),
        token_a_vault: held_by_pool(20, 10),
        token_b_vault: held_by_pool(21, 11),
        lp_mint: at(30),
        user_lp_token: held_by_user(52, 30),
        clock: time(4),
    };
    let requests = program::remove_liquidity(&mut out, 999_000, 0, 0).unwrap();
    assert_eq!(
        requests[1],
        TokenInstruction::Transfer {
            from: at(20),
            to: at(50),
            amount: (999_000u128 * 1_001_009 / 1_000_000) as u64,
        }
    );
    assert_eq!(out.pool.total_lp_supply, 1000);
    assert!(out.pool.reserve_a > 0 && out.pool.reserve_b > 0);
}

#[test]
fn a_paused_pool_rejects_what_moves_its_reserves_and_nothing_else() {
    let mut seeded = deposit(created_pool(), LiquidityProvider::default(), 1);
    program::add_liquidity(&mut seeded, 1_000_000, 1_000_000, 0).unwrap();

    let mut pause = PausePool { pool: seeded.pool, authority: at(1) };
    program::pause_pool(&mut pause).unwrap();
    let paused = pause.pool;

    let mut trade = swap_of(paused, 2);
    assert_eq!(program::swap(&mut trade, 1000, 0, true), Err(AmmError::PoolPaused));
    let mut more = deposit(paused, seeded.lp_provider, 2);
    assert_eq!(program::add_liquidity(&mut more, 10, 10, 0), Err(AmmError::PoolPaused));
    let mut out = RemoveLiquidity {
        pool: paused,
        lp_provider: seeded.lp_provider,
        user: at(2),
        user_token_a: held_by_user(50, 10),
        user_token_b: held_by_user(51, 11),
        token_a_vault: held_by_pool(20, 10),
        token_b_vault: held_by_pool(21, 11),
        lp_mint: at(30),
        user_lp_token: held_by_user(52, 30),
        clock: time(2),
    };
    assert_eq!(program::remove_liquidity(&mut out, 10, 0, 0), Err(AmmError::PoolPaused));
    let mut loan = loan_of(paused, 2);
    assert_eq!(program::flash_loan(&mut loan, 10, 0), Err(AmmError::PoolPaused));
    let mut route = MultiHopSwap {
        user: at(2),
        pool_1: paused,
        pool_2: None,
        pool_3: None,
        user_token_in: held_by_user(50, 10),
        user_token_out: held_by_user(51, 11),
        intermediate_token_1: None,
        intermediate_token_2: None,
        pool_1_vault_in: held_by_pool(20, 10),
        pool_1_vault_out: held_by_pool(21, 11),
        pool_2_vault_in: None,
        pool_2_vault_out: None,
        pool_3_vault_in: None,
        pool_3_vault_out: None,
        oracle_1_a: sample(40),
        oracle_1_b: sample(41),
        oracle_2_a: None,
        oracle_2_b: None,
        oracle_3_a: None,
        oracle_3_b: None,
        clock: time(2),
    };
    assert_eq!(program::multi_hop_swap(&mut route, 1000, 0, 1), Err(AmmError::PoolPaused));
    assert_eq!(trade.pool, paused);
    assert_eq!(more.pool, paused);
    assert_eq!(out.pool, paused);
    assert_eq!(loan.pool, paused);
    assert_eq!(route.pool_1, paused);

    // The farm on the paused pool goes on.
    let mut farm = InitializeFarm {
        pool: paused,
        pool_key: at(5),
        farming_pool: FarmingPool::default(),
        farming_pool_bump: 251,
        authority: at(1),
        lp_mint: at(30),
        reward_mint: at(31),
        reward_vault: at(60),
        clock: time(50),
    };
    program::initialize_farm(&mut farm, 7, 100, 10_000).unwrap();
    let mut staking = Stake {
        pool: paused,
        farming_pool: farm.farming_pool,
        farming_pool_key: at(6),
        user_stake: UserStake::default(),
        user_stake_bump: 252,
        user: at(2),
        user_lp_token: held_by_user(52, 30),
        lp_token_vault: TokenAccount { key: at(61), mint: at(30), owner: at(6) },
        reward_vault: TokenAccount { key: at(60), mint: at(31), owner: at(6) },
        user_reward_token: held_by_user(53, 31),
        clock: time(200),
    };
    program::stake(&mut staking, 100).unwrap();
    let mut claim = ClaimRewards {
        pool: paused,
        farming_pool: staking.farming_pool,
        user_stake: staking.user_stake,
        user: at(2),
        reward_vault: TokenAccount { key: at(60), mint: at(31), owner: at(6) },
        user_reward_token: held_by_user(53, 31),
        clock: time(210),
    };
    let requests = program::claim_rewards(&mut claim).unwrap();
    assert_eq!(
        requests,
        vec![TokenInstruction::Transfer { from: at(60), to: at(53), amount: 70 }]
    );
    let mut leave = Unstake {
        pool: paused,
        farming_pool: claim.farming_pool,
        user_stake: claim.user_stake,
        user: at(2),
        user_lp_token: held_by_user(52, 30),
        lp_token_vault: TokenAccount { key: at(61), mint: at(30), owner: at(6) },
        reward_vault: TokenAccount { key: at(60), mint: at(31), owner: at(6) },
        user_reward_token: held_by_user(53, 31),
        clock: time(210),
    };
    program::unstake(&mut leave, 100).unwrap();
    assert_eq!(leave.user_stake.staked_amount, 0);

    // Once resumed the pool trades again.
    let mut resume = UnpausePool { pool: paused, authority: at(1) };
    program::unpause_pool(&mut resume).unwrap();
    let mut trade = swap_of(resume.pool, 2);
    assert!(program::swap(&mut trade, 1000, 0, true).is_ok());
}

#[test]
fn administration_through_the_entry_points() {
    let pool = created_pool();
    let mut fees = UpdateFees { pool, authority: at(1) };
    assert_eq!(program::update_fees(&mut fees, 1, 100), Ok(()));
    assert_eq!((fees.pool.fee_numerator, fees.pool.fee_denominator), (1, 100));
    assert_eq!(program::update_fees(&mut fees, 1, 9), Err(AmmError::InvalidFeeParameters));

    let mut feeds = UpdateOracleConfig { pool: fees.pool, authority: at(1) };
    assert_eq!(program::update_oracle_config(&mut feeds, Some(60), Some(250)), Ok(()));
    assert_eq!((feeds.pool.oracle_max_age, feeds.pool.oracle_max_deviation_bps), (60, 250));

    let mut handover = TransferAuthority { pool: feeds.pool, authority: at(1), new_authority: at(7) };
    assert_eq!(program::transfer_authority(&mut handover), Ok(()));
    assert_eq!(handover.pool.authority, at(7));
    let mut late = UpdateFees { pool: handover.pool, authority: at(1) };
    assert_eq!(program::update_fees(&mut late, 1, 100), Err(AmmError::Unauthorized));
}

#[test]
fn a_paused_pool_answers_with_its_own_error_once_the_accounts_fit() {
    let mut seeded = deposit(created_pool(), LiquidityProvider::default(), 1);
    program::add_liquidity(&mut seeded, 1_000_000, 1_000_000, 0).unwrap();
    let paused = Pool { is_paused: true, ..seeded.pool };

    // Accounts that do not fit are turned away before the pause is looked at.
    let mut trade = swap_of(paused, 2);
    trade.user_token_in.owner = at(99);
    let before = trade;
    assert_eq!(program::swap(&mut trade, 1000, 0, true), Err(AmmError::InvalidAuthority));
    assert_eq!(trade, before);

    // With fitting accounts every request is answered with the pause, whatever it asks for.
    for (amount, minimum, forward) in [(0u64, 0u64, true), (1000, 0, false), (u64::MAX, 7, true)] {
        let mut trade = swap_of(paused, 2);
        let before = trade;
        assert_eq!(program::swap(&mut trade, amount, minimum, forward), Err(AmmError::PoolPaused));
        assert_eq!(trade, before);
    }
    let mut loan = loan_of(paused, 2);
    let before = loan;
    assert_eq!(program::flash_loan(&mut loan, 0, 0), Err(AmmError::PoolPaused));
    assert_eq!(loan, before);
    assert_eq!(loan.flash_loan_record, FlashLoanRecord::default());
}
