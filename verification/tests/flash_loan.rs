use alioth_amm::errors::AmmError;
use alioth_amm::host::{Clock, Pubkey, TokenAccount, TokenInstruction};
use alioth_amm::instructions::flash_loan::handler;
use alioth_amm::instructions::{repay_handler, FlashLoan, FlashLoanRepay};
use alioth_amm::state::{FlashLoanRecord, Pool};

fn loan_key(n: u128) -> Pubkey {
    Pubkey::new(0, n)
}

fn loan_pool(reserve_a: u64, reserve_b: u64) -> Pool {
    Pool {
        token_a_mint: loan_key(10),
        token_b_mint: loan_key(11),
        token_a_vault: loan_key(20),
        token_b_vault: loan_key(21),
        reserve_a,
        reserve_b,
        total_lp_supply: 1_000_000,
        fee_numerator: 3,
        fee_denominator: 1000,
        ..Pool::default()
    }
}

fn loan_from(pool: Pool, slot: u64) -> FlashLoan {
    let borrower = loan_key(2);
    FlashLoan {
        pool,
        pool_key: loan_key(5),
        flash_loan_record: FlashLoanRecord::default(),
        flash_loan_record_bump: 250,
        borrower,
        borrower_token_a: TokenAccount { key: loan_key(50), mint: loan_key(10), owner: borrower },
        borrower_token_b: TokenAccount { key: loan_key(51), mint: loan_key(11), owner: borrower },
        token_a_vault: TokenAccount { key: loan_key(20), mint: loan_key(10), owner: loan_key(5) },
        token_b_vault: TokenAccount { key: loan_key(21), mint: loan_key(11), owner: loan_key(5) },
        clock: Clock { slot, unix_timestamp: 1010 },
    }
}

fn repayment_of(loan: &FlashLoan, slot: u64) -> FlashLoanRepay {
    FlashLoanRepay {
        pool: loan.pool,
        flash_loan_record: loan.flash_loan_record,
        borrower: loan.borrower,
        borrower_token_a: loan.borrower_token_a,
        borrower_token_b: loan.borrower_token_b,
        token_a_vault: loan.token_a_vault,
        token_b_vault: loan.token_b_vault,
        clock: Clock { slot, unix_timestamp: 1010 },
    }
}

#[test]
fn loan_records_principal_fee_and_batch() {
    let mut ctx = loan_from(loan_pool(5_000_000, 5_000_000), 42);
    let requests = handler(&mut ctx, 1_000_000, 50).unwrap();
    assert_eq!(
        requests,
        vec![
            TokenInstruction::Transfer { from: loan_key(20), to: loan_key(50), amount: 1_000_000 },
            TokenInstruction::Transfer { from: loan_key(21), to: loan_key(51), amount: 50 },
        ]
    );
    assert_eq!(
        ctx.flash_loan_record,
        FlashLoanRecord {
            pool: loan_key(5),
            borrower: loan_key(2),
            amount_a_borrowed: 1_000_000,
            amount_b_borrowed: 50,
            fee_a: 900,
            fee_b: 1,
            initiated_slot: 42,
            is_repaid: false,
            bump: 250,
        }
    );
    assert_eq!(ctx.flash_loan_record.total_repay_a(), 1_000_900);
    assert_eq!(ctx.flash_loan_record.total_repay_b(), 51);
    // Lending does not touch the reserves.
    assert_eq!(ctx.pool, loan_pool(5_000_000, 5_000_000));
}

#[test]
fn loan_fee_is_nine_in_ten_thousand_and_at_least_one() {
    let cases: [(u64, u64); 7] =
        [(1, 1), (100, 1), (1111, 1), (1112, 1), (2223, 2), (10_000, 9), (1_000_000, 900)];
    for (amount, fee) in cases {
        let mut ctx = loan_from(loan_pool(5_000_000, 5_000_000), 42);
        handler(&mut ctx, amount, 0).unwrap();
        assert_eq!(ctx.flash_loan_record.fee_a, fee);
        assert_eq!(ctx.flash_loan_record.fee_b, 0);
        assert_eq!(ctx.flash_loan_record.total_repay_a(), amount + fee);
        assert!(ctx.flash_loan_record.total_repay_a() >= amount + std::cmp::max(1, amount * 9 / 10_000));
    }
}

#[test]
fn loan_of_one_asset_requests_one_transfer() {
    let mut ctx = loan_from(loan_pool(5_000_000, 5_000_000), 42);
    let requests = handler(&mut ctx, 0, 700).unwrap();
    assert_eq!(
        requests,
        vec![TokenInstruction::Transfer { from: loan_key(21), to: loan_key(51), amount: 700 }]
    );
}

#[test]
fn paused_pool_rejects_a_loan() {
    let mut pool = loan_pool(5_000_000, 5_000_000);
    pool.is_paused = true;
    let mut ctx = loan_from(pool, 42);
    let before = ctx;
    assert_eq!(handler(&mut ctx, 1000, 1000), Err(AmmError::PoolPaused));
    assert_eq!(ctx, before);
}

#[test]
fn loan_rejections() {
    let good = loan_from(loan_pool(5_000_000, 5_000_000), 42);

    let mut ctx = good;
    assert_eq!(handler(&mut ctx, 0, 0), Err(AmmError::ZeroAmount));
    assert_eq!(handler(&mut ctx, 5_000_001, 0), Err(AmmError::InsufficientLiquidity));
    assert_eq!(handler(&mut ctx, 0, 5_000_001), Err(AmmError::InsufficientLiquidity));
    assert_eq!(ctx, good);
    assert!(handler(&mut ctx, 5_000_000, 5_000_000).is_ok());

    let mut ctx = good;
    ctx.borrower_token_a.mint = loan_key(99);
    assert_eq!(handler(&mut ctx, 5, 5), Err(AmmError::TokenMintMismatch));

    let mut ctx = good;
    ctx.borrower_token_a.owner = loan_key(99);
    assert_eq!(handler(&mut ctx, 5, 5), Err(AmmError::InvalidAuthority));

    let mut ctx = good;
    ctx.token_a_vault.key = loan_key(99);
    assert_eq!(handler(&mut ctx, 5, 5), Err(AmmError::InvalidPoolConfig));

    // Nine times the amount must fit in 64 bits.
    let mut ctx = loan_from(loan_pool(u64::MAX, u64::MAX), 42);
    let before = ctx;
    assert_eq!(handler(&mut ctx, 2_049_638_230_412_172_402, 0), Err(AmmError::MathOverflow));
    assert_eq!(ctx, before);
    handler(&mut ctx, 2_049_638_230_412_172_401, 0).unwrap();
    assert_eq!(ctx.flash_loan_record.fee_a, 1_844_674_407_370_955);
}

#[test]
fn repayment_in_the_same_batch_collects_the_fees() {
    let mut loan = loan_from(loan_pool(5_000_000, 5_000_000), 42);
    handler(&mut loan, 1_000_000, 50).unwrap();
    let mut ctx = repayment_of(&loan, 42);
    let requests = repay_handler(&mut ctx).unwrap();
    assert_eq!(
        requests,
        vec![
            TokenInstruction::Transfer { from: loan_key(50), to: loan_key(20), amount: 1_000_900 },
            TokenInstruction::Transfer { from: loan_key(51), to: loan_key(21), amount: 51 },
        ]
    );
    assert_eq!((ctx.pool.reserve_a, ctx.pool.reserve_b), (5_000_900, 5_000_001));
    assert_eq!((ctx.pool.total_fees_a, ctx.pool.total_fees_b), (900, 1));
    assert!(ctx.flash_loan_record.is_repaid);
}

#[test]
fn repayment_in_another_batch_fails() {
    let mut loan = loan_from(loan_pool(5_000_000, 5_000_000), 42);
    handler(&mut loan, 1_000_000, 50).unwrap();
    let mut later = repayment_of(&loan, 43);
    let before = later;
    assert_eq!(repay_handler(&mut later), Err(AmmError::FlashLoanNotRepaid));
    assert_eq!(later, before);
    let mut earlier = repayment_of(&loan, 41);
    assert_eq!(repay_handler(&mut earlier), Err(AmmError::FlashLoanNotRepaid));
}

#[test]
fn a_loan_is_repaid_once() {
    let mut loan = loan_from(loan_pool(5_000_000, 5_000_000), 42);
    handler(&mut loan, 1_000_000, 50).unwrap();
    let mut ctx = repayment_of(&loan, 42);
    repay_handler(&mut ctx).unwrap();
    let before = ctx;
    assert_eq!(repay_handler(&mut ctx), Err(AmmError::FlashLoanAlreadyRepaid));
    assert_eq!(ctx, before);
}

#[test]
fn repayment_is_open_while_the_pool_is_paused() {
    let mut loan = loan_from(loan_pool(5_000_000, 5_000_000), 42);
    handler(&mut loan, 1000, 0).unwrap();
    let mut ctx = repayment_of(&loan, 42);
    ctx.pool.is_paused = true;
    assert!(repay_handler(&mut ctx).is_ok());
    assert_eq!(ctx.pool.reserve_a, 5_000_001);
}

#[test]
fn repayment_rejections() {
    let mut loan = loan_from(loan_pool(5_000_000, 5_000_000), 42);
    handler(&mut loan, 1_000_000, 50).unwrap();
    let good = repayment_of(&loan, 42);

    let mut ctx = good;
    ctx.borrower = loan_key(99);
    assert_eq!(repay_handler(&mut ctx), Err(AmmError::InvalidAuthority));

    let mut ctx = good;
    ctx.borrower_token_b.mint = loan_key(99);
    assert_eq!(repay_handler(&mut ctx), Err(AmmError::TokenMintMismatch));

    let mut ctx = good;
    ctx.token_b_vault.key = loan_key(99);
    assert_eq!(repay_handler(&mut ctx), Err(AmmError::InvalidPoolConfig));

    let mut ctx = good;
    ctx.pool.total_fees_a = u64::MAX - 899;
    let before = ctx;
    assert_eq!(repay_handler(&mut ctx), Err(AmmError::MathOverflow));
    assert_eq!(ctx, before);

    let mut ctx = good;
    ctx.flash_loan_record.fee_b = u64::MAX;
    assert_eq!(repay_handler(&mut ctx), Err(AmmError::MathOverflow));
}
