//! The records that operations read and change.

pub mod farming;
pub mod flash_loan;
pub mod pool;

pub use farming::{FarmingPool, UserStake};
pub use flash_loan::FlashLoanRecord;
pub use pool::{LiquidityProvider, Pool};
