//! The record of a loan that is open within one atomic batch.

use vstd::prelude::*;
use crate::host::Pubkey;

verus! {

/// An open flash loan: what was lent, what it costs, and the batch in which
/// it has to be repaid.
#[derive(Clone, Copy, Debug, PartialEq, Eq, Structural)]
pub struct FlashLoanRecord {
    /// Pool that lent.
    pub pool: Pubkey,
    /// Who borrowed.
    pub borrower: Pubkey,
    /// Asset A lent.
    pub amount_a_borrowed: u64,
    /// Asset B lent.
    pub amount_b_borrowed: u64,
    /// Fee owed in asset A on top of the principal.
    pub fee_a: u64,
    /// Fee owed in asset B on top of the principal.
    pub fee_b: u64,
    /// Batch in which the loan was opened.
    pub initiated_slot: u64,
    /// Whether the loan has been repaid and closed.
    pub is_repaid: bool,
    /// Address derivation seed.
    pub bump: u8,
}

impl FlashLoanRecord {
    /// Both repayments, principal plus fee, fit in 64 bits. Every record
    /// that a loan opens is of this kind.
    pub open spec fn wf(&self) -> bool {
        &&& self.amount_a_borrowed + self.fee_a <= u64::MAX
        &&& self.amount_b_borrowed + self.fee_b <= u64::MAX
    }

    /// Asset A owed: principal plus fee.
    pub fn total_repay_a(&self) -> (r: u64)
        requires
            self.amount_a_borrowed + self.fee_a <= u64::MAX,
        ensures
            r == self.amount_a_borrowed + self.fee_a,
    {
        self.amount_a_borrowed + self.fee_a
    }

    /// Asset B owed: principal plus fee.
    pub fn total_repay_b(&self) -> (r: u64)
        requires
            self.amount_b_borrowed + self.fee_b <= u64::MAX,
        ensures
            r == self.amount_b_borrowed + self.fee_b,
    {
        self.amount_b_borrowed + self.fee_b
    }
}

impl Default for FlashLoanRecord {
    /// The zeroed record before a loan is written into it.
    fn default() -> (r: FlashLoanRecord)
        ensures
            r == (FlashLoanRecord {
                pool: Pubkey { hi: 0, lo: 0 },
                borrower: Pubkey { hi: 0, lo: 0 },
                amount_a_borrowed: 0,
                amount_b_borrowed: 0,
                fee_a: 0,
                fee_b: 0,
                initiated_slot: 0,
                is_repaid: false,
                bump: 0,
            }),
    {
        FlashLoanRecord {
            pool: Pubkey { hi: 0, lo: 0 },
            borrower: Pubkey { hi: 0, lo: 0 },
            amount_a_borrowed: 0,
            amount_b_borrowed: 0,
            fee_a: 0,
            fee_b: 0,
            initiated_slot: 0,
            is_repaid: false,
            bump: 0,
        }
    }
}

} // verus!
