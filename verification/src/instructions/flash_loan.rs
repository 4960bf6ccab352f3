//! Loans out of the reserves that are opened and repaid within one atomic
//! batch.
//!
//! A loan is a record with two phases: it is opened by `handler`, which
//! writes what is owed and the batch it is owed in, and closed by
//! `repay_handler`, which accepts repayment in that batch only.

use vstd::prelude::*;
use crate::constants::{FLASH_LOAN_FEE_DENOMINATOR, FLASH_LOAN_FEE_NUMERATOR};
use crate::errors::AmmError;
use crate::host::{Clock, Pubkey, TokenAccount, TokenInstruction};
use crate::state::flash_loan::FlashLoanRecord;
use crate::state::pool::Pool;

verus! {

/// What the opening of a loan works on.
#[derive(Clone, Copy, Debug, PartialEq, Eq, Structural)]
pub struct FlashLoan {
    pub pool: Pool,
    /// Address of the pool.
    pub pool_key: Pubkey,
    /// The record to fill.
    pub flash_loan_record: FlashLoanRecord,
    /// Address derivation seed of the record.
    pub flash_loan_record_bump: u8,
    /// Who borrows.
    pub borrower: Pubkey,
    pub borrower_token_a: TokenAccount,
    pub borrower_token_b: TokenAccount,
    pub token_a_vault: TokenAccount,
    pub token_b_vault: TokenAccount,
    pub clock: Clock,
}

/// What a repayment works on.
#[derive(Clone, Copy, Debug, PartialEq, Eq, Structural)]
pub struct FlashLoanRepay {
    pub pool: Pool,
    /// The open loan.
    pub flash_loan_record: FlashLoanRecord,
    /// Who repays.
    pub borrower: Pubkey,
    pub borrower_token_a: TokenAccount,
    pub borrower_token_b: TokenAccount,
    pub token_a_vault: TokenAccount,
    pub token_b_vault: TokenAccount,
    pub clock: Clock,
}

/// The fee on a loan of `amount`: 9 in 10000, rounded down, and no less than
/// one unit of whatever is borrowed at all.
pub open spec fn flash_loan_fee(amount: u64) -> int {
    let share = amount * FLASH_LOAN_FEE_NUMERATOR / (FLASH_LOAN_FEE_DENOMINATOR as int);
    if amount == 0 {
        0
    } else if share < 1 {
        1
    } else {
        share
    }
}

/// The account checks that precede a loan or its repayment, on the accounts
/// that both have.
pub open spec fn flash_loan_account_error(
    pool: Pool,
    borrower: Pubkey,
    borrower_token_a: TokenAccount,
    borrower_token_b: TokenAccount,
    token_a_vault: TokenAccount,
    token_b_vault: TokenAccount,
) -> Option<AmmError> {
    if borrower_token_a.mint != pool.token_a_mint {
        Some(AmmError::TokenMintMismatch)
    } else if borrower_token_a.owner != borrower {
        Some(AmmError::InvalidAuthority)
    } else if borrower_token_b.mint != pool.token_b_mint {
        Some(AmmError::TokenMintMismatch)
    } else if borrower_token_b.owner != borrower {
        Some(AmmError::InvalidAuthority)
    } else if token_a_vault.key != pool.token_a_vault || token_b_vault.key != pool.token_b_vault {
        Some(AmmError::InvalidPoolConfig)
    } else {
        None
    }
}

/// A transfer of `amount`, or nothing where the amount is zero.
pub open spec fn transfer_if_any(from: Pubkey, to: Pubkey, amount: u64) -> Seq<TokenInstruction> {
    if amount > 0 {
        seq![TokenInstruction::Transfer { from, to, amount }]
    } else {
        Seq::empty()
    }
}

/// The record of a loan of the given amounts, opened now.
pub open spec fn loan_opened(ctx: FlashLoan, amount_a: u64, amount_b: u64) -> FlashLoanRecord {
    FlashLoanRecord {
        pool: ctx.pool_key,
        borrower: ctx.borrower,
        amount_a_borrowed: amount_a,
        amount_b_borrowed: amount_b,
        fee_a: flash_loan_fee(amount_a) as u64,
        fee_b: flash_loan_fee(amount_b) as u64,
        initiated_slot: ctx.clock.slot,
        is_repaid: false,
        bump: ctx.flash_loan_record_bump,
    }
}

/// What opening a loan does: the accounts afterwards and the custody
/// requests, or the error with which the loan is refused.
pub open spec fn flash_loan_spec(ctx: FlashLoan, amount_a: u64, amount_b: u64) -> Result<
    (FlashLoan, Seq<TokenInstruction>),
    AmmError,
> {
    let accounts = flash_loan_account_error(
        ctx.pool,
        ctx.borrower,
        ctx.borrower_token_a,
        ctx.borrower_token_b,
        ctx.token_a_vault,
        ctx.token_b_vault,
    );
    if accounts is Some {
        Err(accounts->Some_0)
    } else if ctx.pool.is_paused {
        Err(AmmError::PoolPaused)
    } else if amount_a == 0 && amount_b == 0 {
        Err(AmmError::ZeroAmount)
    } else if ctx.pool.reserve_a < amount_a || ctx.pool.reserve_b < amount_b {
        Err(AmmError::InsufficientLiquidity)
    } else if amount_a * FLASH_LOAN_FEE_NUMERATOR > u64::MAX || amount_b * FLASH_LOAN_FEE_NUMERATOR
        > u64::MAX {
        Err(AmmError::MathOverflow)
    } else {
        Ok(
            (
                FlashLoan { flash_loan_record: loan_opened(ctx, amount_a, amount_b), ..ctx },
                transfer_if_any(ctx.token_a_vault.key, ctx.borrower_token_a.key, amount_a)
                    + transfer_if_any(ctx.token_b_vault.key, ctx.borrower_token_b.key, amount_b),
            ),
        )
    }
}

/// The pool with the fees of a repaid loan added to its reserves and fee
/// counters.
pub open spec fn fees_collected(pool: Pool, record: FlashLoanRecord) -> Pool {
    Pool {
        total_fees_a: (pool.total_fees_a + record.fee_a) as u64,
        total_fees_b: (pool.total_fees_b + record.fee_b) as u64,
        reserve_a: (pool.reserve_a + record.fee_a) as u64,
        reserve_b: (pool.reserve_b + record.fee_b) as u64,
        ..pool
    }
}

/// What a repayment does: the accounts afterwards and the custody requests,
/// or the error with which it is rejected.
pub open spec fn flash_loan_repay_spec(ctx: FlashLoanRepay) -> Result<
    (FlashLoanRepay, Seq<TokenInstruction>),
    AmmError,
> {
    let record = ctx.flash_loan_record;
    if repay_constraint_error(ctx) is Some {
        Err(repay_constraint_error(ctx)->Some_0)
    } else if ctx.clock.slot != record.initiated_slot {
        Err(AmmError::FlashLoanNotRepaid)
    } else if !record.wf() || ctx.pool.total_fees_a + record.fee_a > u64::MAX
        || ctx.pool.total_fees_b + record.fee_b > u64::MAX || ctx.pool.reserve_a + record.fee_a
        > u64::MAX || ctx.pool.reserve_b + record.fee_b > u64::MAX {
        Err(AmmError::MathOverflow)
    } else {
        Ok(
            (
                FlashLoanRepay {
                    pool: fees_collected(ctx.pool, record),
                    flash_loan_record: FlashLoanRecord { is_repaid: true, ..record },
                    ..ctx
                },
                transfer_if_any(
                    ctx.borrower_token_a.key,
                    ctx.token_a_vault.key,
                    (record.amount_a_borrowed + record.fee_a) as u64,
                ) + transfer_if_any(
                    ctx.borrower_token_b.key,
                    ctx.token_b_vault.key,
                    (record.amount_b_borrowed + record.fee_b) as u64,
                ),
            ),
        )
    }
}

/// The fee on one side of a loan, where the scaled amount fits in 64 bits.
fn compute_fee(amount: u64) -> (r: Option<u64>)
    ensures
        amount * FLASH_LOAN_FEE_NUMERATOR > u64::MAX ==> r is None,
        amount * FLASH_LOAN_FEE_NUMERATOR <= u64::MAX ==> r == Some(flash_loan_fee(amount) as u64),
        r is Some ==> r->Some_0 == flash_loan_fee(amount) && amount + r->Some_0 <= u64::MAX,
{
    if amount == 0 {
        return Some(0);
    }
    let scaled: u64 = match amount.checked_mul(FLASH_LOAN_FEE_NUMERATOR) {
        Some(v) => v,
        None => {
            return None;
        },
    };
    let share: u64 = scaled / FLASH_LOAN_FEE_DENOMINATOR;
    if share < 1 {
        Some(1)
    } else {
        Some(share)
    }
}

/// Lends `amount_a` and `amount_b` out of the reserves and records what is
/// owed: each principal plus its fee, in the present batch.
///
/// A paused pool lends nothing. The reserves are not reduced: the loan is
/// whole again before the batch ends, or the batch never happened. A loan
/// that is refused changes nothing.
pub fn handler(ctx: &mut FlashLoan, amount_a: u64, amount_b: u64) -> (r: Result<
    Vec<TokenInstruction>,
    AmmError,
>)
    ensures
        r is Ok ==> flash_loan_spec(*old(ctx), amount_a, amount_b) == Ok::<
            (FlashLoan, Seq<TokenInstruction>),
            AmmError,
        >((*final(ctx), r->Ok_0@)),
        r is Err ==> flash_loan_spec(*old(ctx), amount_a, amount_b) == Err::<
            (FlashLoan, Seq<TokenInstruction>),
            AmmError,
        >(r->Err_0) && *final(ctx) == *old(ctx),
        old(ctx).pool.is_paused ==> r is Err,
        old(ctx).pool.is_paused && flash_loan_account_error(
            old(ctx).pool,
            old(ctx).borrower,
            old(ctx).borrower_token_a,
            old(ctx).borrower_token_b,
            old(ctx).token_a_vault,
            old(ctx).token_b_vault,
        ) is None ==> r == Err::<Vec<TokenInstruction>, AmmError>(AmmError::PoolPaused),
        r is Ok ==> {
            &&& final(ctx).pool == old(ctx).pool
            &&& final(ctx).flash_loan_record.wf()
            &&& final(ctx).flash_loan_record.fee_a == flash_loan_fee(amount_a)
            &&& final(ctx).flash_loan_record.fee_b == flash_loan_fee(amount_b)
            &&& final(ctx).flash_loan_record.initiated_slot == old(ctx).clock.slot
            &&& !final(ctx).flash_loan_record.is_repaid
        },
{
    if ctx.borrower_token_a.mint != ctx.pool.token_a_mint {
        return Err(AmmError::TokenMintMismatch);
    }
    if ctx.borrower_token_a.owner != ctx.borrower {
        return Err(AmmError::InvalidAuthority);
    }
    if ctx.borrower_token_b.mint != ctx.pool.token_b_mint {
        return Err(AmmError::TokenMintMismatch);
    }
    if ctx.borrower_token_b.owner != ctx.borrower {
        return Err(AmmError::InvalidAuthority);
    }
    if ctx.token_a_vault.key != ctx.pool.token_a_vault || ctx.token_b_vault.key
        != ctx.pool.token_b_vault {
        return Err(AmmError::InvalidPoolConfig);
    }
    if ctx.pool.is_paused {
        return Err(AmmError::PoolPaused);
    }
    if amount_a == 0 && amount_b == 0 {
        return Err(AmmError::ZeroAmount);
    }
    if ctx.pool.reserve_a < amount_a || ctx.pool.reserve_b < amount_b {
        return Err(AmmError::InsufficientLiquidity);
    }
    let fee_a: u64 = match compute_fee(amount_a) {
        Some(v) => v,
        None => {
            return Err(AmmError::MathOverflow);
        },
    };
    let fee_b: u64 = match compute_fee(amount_b) {
        Some(v) => v,
        None => {
            return Err(AmmError::MathOverflow);
        },
    };
    let mut requests: Vec<TokenInstruction> = Vec::new();
    if amount_a > 0 {
        requests.push(
            TokenInstruction::Transfer {
                from: ctx.token_a_vault.key,
                to: ctx.borrower_token_a.key,
                amount: amount_a,
            },
        );
    }
    if amount_b > 0 {
        requests.push(
            TokenInstruction::Transfer {
                from: ctx.token_b_vault.key,
                to: ctx.borrower_token_b.key,
                amount: amount_b,
            },
        );
    }
    assert(requests@ =~= transfer_if_any(
        ctx.token_a_vault.key,
        ctx.borrower_token_a.key,
        amount_a,
    ) + transfer_if_any(ctx.token_b_vault.key, ctx.borrower_token_b.key, amount_b));
    ctx.flash_loan_record = FlashLoanRecord {
        pool: ctx.pool_key,
        borrower: ctx.borrower,
        amount_a_borrowed: amount_a,
        amount_b_borrowed: amount_b,
        fee_a,
        fee_b,
        initiated_slot: ctx.clock.slot,
        is_repaid: false,
        bump: ctx.flash_loan_record_bump,
    };
    Ok(requests)
}

/// Takes repayment of an open loan: each principal plus its fee. The fees
/// go to the reserves and the fee counters, and the loan is closed.
///
/// Repayment in another batch than the one the loan was opened in is
/// rejected with `FlashLoanNotRepaid`. A repayment that is rejected changes
/// nothing.
pub fn repay_handler(ctx: &mut FlashLoanRepay) -> (r: Result<Vec<TokenInstruction>, AmmError>)
    ensures
        r is Ok ==> flash_loan_repay_spec(*old(ctx)) == Ok::<
            (FlashLoanRepay, Seq<TokenInstruction>),
            AmmError,
        >((*final(ctx), r->Ok_0@)),
        r is Err ==> flash_loan_repay_spec(*old(ctx)) == Err::<
            (FlashLoanRepay, Seq<TokenInstruction>),
            AmmError,
        >(r->Err_0) && *final(ctx) == *old(ctx),
        old(ctx).clock.slot != old(ctx).flash_loan_record.initiated_slot ==> r is Err,
        old(ctx).clock.slot != old(ctx).flash_loan_record.initiated_slot && repay_constraint_error(
            *old(ctx),
        ) is None ==> r == Err::<Vec<TokenInstruction>, AmmError>(AmmError::FlashLoanNotRepaid),
        r is Ok ==> final(ctx).flash_loan_record.is_repaid,
        r is Ok && old(ctx).pool.wf() && old(ctx).pool.total_lp_supply > 0 ==> final(ctx).pool.wf(),
{
    if ctx.flash_loan_record.borrower != ctx.borrower {
        return Err(AmmError::InvalidAuthority);
    }
    if ctx.flash_loan_record.is_repaid {
        return Err(AmmError::FlashLoanAlreadyRepaid);
    }
    if ctx.borrower_token_a.mint != ctx.pool.token_a_mint {
        return Err(AmmError::TokenMintMismatch);
    }
    if ctx.borrower_token_a.owner != ctx.borrower {
        return Err(AmmError::InvalidAuthority);
    }
    if ctx.borrower_token_b.mint != ctx.pool.token_b_mint {
        return Err(AmmError::TokenMintMismatch);
    }
    if ctx.borrower_token_b.owner != ctx.borrower {
        return Err(AmmError::InvalidAuthority);
    }
    if ctx.token_a_vault.key != ctx.pool.token_a_vault || ctx.token_b_vault.key
        != ctx.pool.token_b_vault {
        return Err(AmmError::InvalidPoolConfig);
    }
    if ctx.clock.slot != ctx.flash_loan_record.initiated_slot {
        return Err(AmmError::FlashLoanNotRepaid);
    }
    let record: FlashLoanRecord = ctx.flash_loan_record;
    if record.fee_a > 0xffff_ffff_ffff_ffff - record.amount_a_borrowed || record.fee_b
        > 0xffff_ffff_ffff_ffff - record.amount_b_borrowed {
        return Err(AmmError::MathOverflow);
    }
    let total_repay_a: u64 = record.total_repay_a();
    let total_repay_b: u64 = record.total_repay_b();
    let total_fees_a: u64 = match ctx.pool.total_fees_a.checked_add(record.fee_a) {
        Some(v) => v,
        None => {
            return Err(AmmError::MathOverflow);
        },
    };
    let total_fees_b: u64 = match ctx.pool.total_fees_b.checked_add(record.fee_b) {
        Some(v) => v,
        None => {
            return Err(AmmError::MathOverflow);
        },
    };
    let reserve_a: u64 = match ctx.pool.reserve_a.checked_add(record.fee_a) {
        Some(v) => v,
        None => {
            return Err(AmmError::MathOverflow);
        },
    };
    let reserve_b: u64 = match ctx.pool.reserve_b.checked_add(record.fee_b) {
        Some(v) => v,
        None => {
            return Err(AmmError::MathOverflow);
        },
    };
    let mut requests: Vec<TokenInstruction> = Vec::new();
    if total_repay_a > 0 {
        requests.push(
            TokenInstruction::Transfer {
                from: ctx.borrower_token_a.key,
                to: ctx.token_a_vault.key,
                amount: total_repay_a,
            },
        );
    }
    if total_repay_b > 0 {
        requests.push(
            TokenInstruction::Transfer {
                from: ctx.borrower_token_b.key,
                to: ctx.token_b_vault.key,
                amount: total_repay_b,
            },
        );
    }
    assert(requests@ =~= transfer_if_any(
        ctx.borrower_token_a.key,
        ctx.token_a_vault.key,
        total_repay_a,
    ) + transfer_if_any(ctx.borrower_token_b.key, ctx.token_b_vault.key, total_repay_b));
    ctx.pool.total_fees_a = total_fees_a;
    ctx.pool.total_fees_b = total_fees_b;
    ctx.pool.reserve_a = reserve_a;
    ctx.pool.reserve_b = reserve_b;
    ctx.flash_loan_record.is_repaid = true;
    Ok(requests)
}

/// A loan of `amount` is repaid with at least `amount + max(1, amount * 9 /
/// 10000)`: the repayment that the record of a loan asks for is the
/// principal plus the fee, and the fee of a loan that lends anything is one
/// unit or more.
pub proof fn lemma_flash_loan_repayment(ctx: FlashLoan, amount_a: u64, amount_b: u64)
    requires
        flash_loan_spec(ctx, amount_a, amount_b) is Ok,
    ensures
        ({
            let record = flash_loan_spec(ctx, amount_a, amount_b)->Ok_0.0.flash_loan_record;
            let share_a = amount_a * 9 / 10000;
            let share_b = amount_b * 9 / 10000;
            &&& record.wf()
            &&& record.amount_a_borrowed == amount_a
            &&& record.amount_b_borrowed == amount_b
            &&& amount_a > 0 ==> record.amount_a_borrowed + record.fee_a == amount_a + if share_a
                < 1 {
                1
            } else {
                share_a
            }
            &&& amount_b > 0 ==> record.amount_b_borrowed + record.fee_b == amount_b + if share_b
                < 1 {
                1
            } else {
                share_b
            }
            &&& amount_a == 0 ==> record.fee_a == 0
            &&& amount_b == 0 ==> record.fee_b == 0
        }),
{
}

/// The account checks that precede a repayment, in the order they are made:
/// the loan is the borrower's and still open, and the token accounts fit.
pub open spec fn repay_constraint_error(ctx: FlashLoanRepay) -> Option<AmmError> {
    if ctx.flash_loan_record.borrower != ctx.borrower {
        Some(AmmError::InvalidAuthority)
    } else if ctx.flash_loan_record.is_repaid {
        Some(AmmError::FlashLoanAlreadyRepaid)
    } else {
        flash_loan_account_error(
            ctx.pool,
            ctx.borrower,
            ctx.borrower_token_a,
            ctx.borrower_token_b,
            ctx.token_a_vault,
            ctx.token_b_vault,
        )
    }
}

/// A loan can be repaid only in the batch that opened it: with the clock of
/// any other batch the repayment is rejected, whatever else it holds, and
/// with `FlashLoanNotRepaid` where the account checks pass. A loan that is
/// closed is not repaid again.
pub proof fn lemma_repayment_needs_same_batch(ctx: FlashLoanRepay)
    ensures
        ctx.clock.slot != ctx.flash_loan_record.initiated_slot ==> flash_loan_repay_spec(ctx)
            is Err,
        ctx.clock.slot != ctx.flash_loan_record.initiated_slot && repay_constraint_error(ctx)
            is None ==> flash_loan_repay_spec(ctx) == Err::<
            (FlashLoanRepay, Seq<TokenInstruction>),
            AmmError,
        >(AmmError::FlashLoanNotRepaid),
        ctx.flash_loan_record.borrower == ctx.borrower && ctx.flash_loan_record.is_repaid
            ==> flash_loan_repay_spec(ctx) == Err::<
            (FlashLoanRepay, Seq<TokenInstruction>),
            AmmError,
        >(AmmError::FlashLoanAlreadyRepaid),
{
}

/// A loan within the reserves is granted. Where the accounts fit an unpaused
/// pool, something is asked for, the reserves cover both amounts and nine
/// times each amount fits in 64 bits, the loan hands out both amounts,
/// records them with their fees, the present batch and `is_repaid` unset,
/// and leaves the pool as it was.
pub proof fn lemma_loan_is_granted(ctx: FlashLoan, amount_a: u64, amount_b: u64)
    requires
        flash_loan_account_error(
            ctx.pool,
            ctx.borrower,
            ctx.borrower_token_a,
            ctx.borrower_token_b,
            ctx.token_a_vault,
            ctx.token_b_vault,
        ) is None,
        !ctx.pool.is_paused,
        amount_a > 0 || amount_b > 0,
        ctx.pool.reserve_a >= amount_a && ctx.pool.reserve_b >= amount_b,
        amount_a * FLASH_LOAN_FEE_NUMERATOR <= u64::MAX,
        amount_b * FLASH_LOAN_FEE_NUMERATOR <= u64::MAX,
    ensures
        flash_loan_spec(ctx, amount_a, amount_b) is Ok,
        ({
            let (after, requests) = flash_loan_spec(ctx, amount_a, amount_b)->Ok_0;
            let record = after.flash_loan_record;
            &&& after.pool == ctx.pool
            &&& record.pool == ctx.pool_key
            &&& record.borrower == ctx.borrower
            &&& record.amount_a_borrowed == amount_a
            &&& record.amount_b_borrowed == amount_b
            &&& record.fee_a == flash_loan_fee(amount_a)
            &&& record.fee_b == flash_loan_fee(amount_b)
            &&& record.initiated_slot == ctx.clock.slot
            &&& !record.is_repaid
            &&& record.wf()
            &&& requests == transfer_if_any(
                ctx.token_a_vault.key,
                ctx.borrower_token_a.key,
                amount_a,
            ) + transfer_if_any(ctx.token_b_vault.key, ctx.borrower_token_b.key, amount_b)
        }),
{
}

/// Repayment in the opening batch closes the loan. Where the account checks
/// pass, the batch is the one that opened the loan, and the sums owed and
/// the pool's counters fit in 64 bits, the repayment asks the borrower for
/// exactly principal plus fee of each asset, nothing for a sum of zero, adds
/// the fees to the reserves and the fee counters, leaves the share supply
/// alone and marks the record repaid.
pub proof fn lemma_repayment_closes_the_loan(ctx: FlashLoanRepay)
    requires
        repay_constraint_error(ctx) is None,
        ctx.clock.slot == ctx.flash_loan_record.initiated_slot,
        ctx.flash_loan_record.wf(),
        ctx.pool.total_fees_a + ctx.flash_loan_record.fee_a <= u64::MAX,
        ctx.pool.total_fees_b + ctx.flash_loan_record.fee_b <= u64::MAX,
        ctx.pool.reserve_a + ctx.flash_loan_record.fee_a <= u64::MAX,
        ctx.pool.reserve_b + ctx.flash_loan_record.fee_b <= u64::MAX,
    ensures
        flash_loan_repay_spec(ctx) is Ok,
        ({
            let (after, requests) = flash_loan_repay_spec(ctx)->Ok_0;
            let record = ctx.flash_loan_record;
            &&& requests == transfer_if_any(
                ctx.borrower_token_a.key,
                ctx.token_a_vault.key,
                (record.amount_a_borrowed + record.fee_a) as u64,
            ) + transfer_if_any(
                ctx.borrower_token_b.key,
                ctx.token_b_vault.key,
                (record.amount_b_borrowed + record.fee_b) as u64,
            )
            &&& after.pool.reserve_a == ctx.pool.reserve_a + record.fee_a
            &&& after.pool.reserve_b == ctx.pool.reserve_b + record.fee_b
            &&& after.pool.total_fees_a == ctx.pool.total_fees_a + record.fee_a
            &&& after.pool.total_fees_b == ctx.pool.total_fees_b + record.fee_b
            &&& after.pool.total_lp_supply == ctx.pool.total_lp_supply
            &&& after.flash_loan_record == (FlashLoanRecord { is_repaid: true, ..record })
            &&& flash_loan_repay_spec(after) == Err::<
                (FlashLoanRepay, Seq<TokenInstruction>),
                AmmError,
            >(AmmError::FlashLoanAlreadyRepaid)
        }),
{
}

} // verus!
