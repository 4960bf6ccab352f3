//! The ways an operation can be rejected.

use vstd::prelude::*;

verus! {

/// Why an operation was rejected. A rejected operation changes no state.
#[derive(Clone, Copy, Debug, PartialEq, Eq, Structural)]
pub enum AmmError {
    /// Insufficient liquidity in the pool
    InsufficientLiquidity,
    /// Slippage tolerance exceeded
    SlippageExceeded,
    /// Invalid fee parameters
    InvalidFeeParameters,
    /// Pool is currently paused
    PoolPaused,
    /// Oracle price is stale
    StaleOraclePrice,
    /// Oracle price deviation too large
    OraclePriceDeviation,
    /// Invalid oracle account
    InvalidOracle,
    /// Math overflow occurred
    MathOverflow,
    /// Cannot swap zero amount
    ZeroAmount,
    /// Invalid token ratio
    InvalidRatio,
    /// Minimum liquidity requirement not met
    MinimumLiquidityNotMet,
    /// Flash loan not repaid in the same transaction
    FlashLoanNotRepaid,
    /// Flash loan already repaid
    FlashLoanAlreadyRepaid,
    /// Invalid flash loan fee
    InvalidFlashLoanFee,
    /// Unauthorized access
    Unauthorized,
    /// Invalid time range for TWAP calculation
    InvalidTimeRange,
    /// Farming pool not active
    FarmingNotActive,
    /// Farming period has not started yet
    FarmingNotStarted,
    /// Farming period has ended
    FarmingEnded,
    /// No rewards to claim
    NoRewards,
    /// Insufficient staked amount
    InsufficientStake,
    /// Invalid pool configuration
    InvalidPoolConfig,
    /// Maximum hops exceeded
    MaxHopsExceeded,
    /// Invalid swap route
    InvalidSwapRoute,
    /// Cannot divide by zero
    DivisionByZero,
    /// Token mint mismatch
    TokenMintMismatch,
    /// Invalid authority
    InvalidAuthority,
    /// Numerical overflow in calculation
    NumericalOverflow,
}

/// The message that goes with an error.
pub open spec fn error_message(e: AmmError) -> Seq<char> {
    match e {
        AmmError::InsufficientLiquidity => "Insufficient liquidity in the pool"@,
        AmmError::SlippageExceeded => "Slippage tolerance exceeded"@,
        AmmError::InvalidFeeParameters => "Invalid fee parameters"@,
        AmmError::PoolPaused => "Pool is currently paused"@,
        AmmError::StaleOraclePrice => "Oracle price is stale"@,
        AmmError::OraclePriceDeviation => "Oracle price deviation too large"@,
        AmmError::InvalidOracle => "Invalid oracle account"@,
        AmmError::MathOverflow => "Math overflow occurred"@,
        AmmError::ZeroAmount => "Cannot swap zero amount"@,
        AmmError::InvalidRatio => "Invalid token ratio"@,
        AmmError::MinimumLiquidityNotMet => "Minimum liquidity requirement not met"@,
        AmmError::FlashLoanNotRepaid => "Flash loan not repaid in the same transaction"@,
        AmmError::FlashLoanAlreadyRepaid => "Flash loan already repaid"@,
        AmmError::InvalidFlashLoanFee => "Invalid flash loan fee"@,
        AmmError::Unauthorized => "Unauthorized access"@,
        AmmError::InvalidTimeRange => "Invalid time range for TWAP calculation"@,
        AmmError::FarmingNotActive => "Farming pool not active"@,
        AmmError::FarmingNotStarted => "Farming period has not started yet"@,
        AmmError::FarmingEnded => "Farming period has ended"@,
        AmmError::NoRewards => "No rewards to claim"@,
        AmmError::InsufficientStake => "Insufficient staked amount"@,
        AmmError::InvalidPoolConfig => "Invalid pool configuration"@,
        AmmError::MaxHopsExceeded => "Maximum hops exceeded"@,
        AmmError::InvalidSwapRoute => "Invalid swap route"@,
        AmmError::DivisionByZero => "Cannot divide by zero"@,
        AmmError::TokenMintMismatch => "Token mint mismatch"@,
        AmmError::InvalidAuthority => "Invalid authority"@,
        AmmError::NumericalOverflow => "Numerical overflow in calculation"@,
    }
}

impl AmmError {
    /// The message that goes with the error, for display.
    pub fn message(&self) -> (r: &'static str)
        ensures
            r@ == error_message(*self),
    {
        match self {
            AmmError::InsufficientLiquidity => "Insufficient liquidity in the pool",
            AmmError::SlippageExceeded => "Slippage tolerance exceeded",
            AmmError::InvalidFeeParameters => "Invalid fee parameters",
            AmmError::PoolPaused => "Pool is currently paused",
            AmmError::StaleOraclePrice => "Oracle price is stale",
            AmmError::OraclePriceDeviation => "Oracle price deviation too large",
            AmmError::InvalidOracle => "Invalid oracle account",
            AmmError::MathOverflow => "Math overflow occurred",
            AmmError::ZeroAmount => "Cannot swap zero amount",
            AmmError::InvalidRatio => "Invalid token ratio",
            AmmError::MinimumLiquidityNotMet => "Minimum liquidity requirement not met",
            AmmError::FlashLoanNotRepaid => "Flash loan not repaid in the same transaction",
            AmmError::FlashLoanAlreadyRepaid => "Flash loan already repaid",
            AmmError::InvalidFlashLoanFee => "Invalid flash loan fee",
            AmmError::Unauthorized => "Unauthorized access",
            AmmError::InvalidTimeRange => "Invalid time range for TWAP calculation",
            AmmError::FarmingNotActive => "Farming pool not active",
            AmmError::FarmingNotStarted => "Farming period has not started yet",
            AmmError::FarmingEnded => "Farming period has ended",
            AmmError::NoRewards => "No rewards to claim",
            AmmError::InsufficientStake => "Insufficient staked amount",
            AmmError::InvalidPoolConfig => "Invalid pool configuration",
            AmmError::MaxHopsExceeded => "Maximum hops exceeded",
            AmmError::InvalidSwapRoute => "Invalid swap route",
            AmmError::DivisionByZero => "Cannot divide by zero",
            AmmError::TokenMintMismatch => "Token mint mismatch",
            AmmError::InvalidAuthority => "Invalid authority",
            AmmError::NumericalOverflow => "Numerical overflow in calculation",
        }
    }
}

} // verus!
