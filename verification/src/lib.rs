//! Constant-product automated market maker: pool accounting, swap pricing,
//! liquidity shares, flash loans, price-feed guarding and staking rewards,
//! as integer state transitions with machine-checked contracts.
//!
//! An operation takes the records and host values it works on, decides, and
//! hands back the requests to the token-custody service that carry it out.
//! It reads no clock and moves no token itself.

pub mod constants;
pub mod errors;
pub mod host;
pub mod instructions;
pub mod program;
pub mod state;
pub mod utils;
