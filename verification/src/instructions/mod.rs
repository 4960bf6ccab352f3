//! The operations: each takes the records and host values it works on and
//! hands back the custody requests that carry it out. An operation that is
//! rejected changes nothing.

pub mod add_liquidity;
pub mod admin;
pub mod farming;
pub mod flash_loan;
pub mod initialize_pool;
pub mod multi_hop;
pub mod remove_liquidity;
pub mod swap;

pub use add_liquidity::AddLiquidity;
pub use admin::{
    pause_pool_handler, transfer_authority_handler, unpause_pool_handler, update_fees_handler,
    update_oracle_config_handler, PausePool, TransferAuthority, UnpausePool, UpdateFees,
    UpdateOracleConfig,
};
pub use farming::{
    claim_rewards_handler, initialize_farm_handler, stake_handler, unstake_handler, ClaimRewards,
    InitializeFarm, Stake, Unstake,
};
pub use flash_loan::{repay_handler, FlashLoan, FlashLoanRepay};
pub use initialize_pool::InitializePool;
pub use multi_hop::MultiHopSwap;
pub use remove_liquidity::RemoveLiquidity;
pub use swap::Swap;
