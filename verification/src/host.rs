//! Plain values that stand for what the host ledger hands to an operation:
//! addresses, token accounts, the clock, price-feed samples, and the custody
//! requests an operation hands back.

use vstd::prelude::*;

verus! {

/// A 256-bit account address, held as two 128-bit halves.
#[derive(Clone, Copy, Debug, PartialEq, Eq, Structural, Hash)]
pub struct Pubkey {
    pub hi: u128,
    pub lo: u128,
}

impl Pubkey {
    /// The address made of the two given halves.
    pub fn new(hi: u128, lo: u128) -> (r: Pubkey)
        ensures
            r == (Pubkey { hi, lo }),
    {
        Pubkey { hi, lo }
    }
}

impl Default for Pubkey {
    fn default() -> (r: Pubkey)
        ensures
            r == (Pubkey { hi: 0, lo: 0 }),
    {
        Pubkey { hi: 0, lo: 0 }
    }
}

/// What an operation reads of a token account: where it lives, which asset it
/// holds and who may spend from it.
#[derive(Clone, Copy, Debug, PartialEq, Eq, Structural)]
pub struct TokenAccount {
    pub key: Pubkey,
    pub mint: Pubkey,
    pub owner: Pubkey,
}

/// The host's clock at the time of the call.
#[derive(Clone, Copy, Debug, PartialEq, Eq, Structural)]
pub struct Clock {
    /// Identifier of the current atomic batch.
    pub slot: u64,
    /// Seconds since the epoch.
    pub unix_timestamp: i64,
}

/// One sample of a price feed: the price is `price * 10^exponent`.
///
/// A sample carries no age. Whoever reads the feed account hands over only
/// samples that are younger than the pool's `oracle_max_age`.
#[derive(Clone, Copy, Debug, PartialEq, Eq, Structural)]
pub struct PriceFeed {
    pub key: Pubkey,
    pub price: i64,
    pub confidence: u64,
    pub exponent: i32,
}

/// A request to the token-custody service. An operation that succeeds hands
/// back the requests that carry it out, in the order to perform them.
#[derive(Clone, Copy, Debug, PartialEq, Eq, Structural)]
pub enum TokenInstruction {
    /// Move `amount` from one token account to another.
    Transfer { from: Pubkey, to: Pubkey, amount: u64 },
    /// Create `amount` new units of `mint` in the account `to`.
    MintTo { mint: Pubkey, to: Pubkey, amount: u64 },
    /// Destroy `amount` units of `mint` held in the account `from`.
    Burn { mint: Pubkey, from: Pubkey, amount: u64 },
}

} // verus!
