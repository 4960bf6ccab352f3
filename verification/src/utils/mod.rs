//! Stateless arithmetic: curve pricing, share math and the price-feed guard.

pub mod arith;
pub mod curve;
pub mod math;
pub mod oracle;

pub use math::AmmMath;
pub use oracle::OracleHelper;
