//! Per-token bonding-curve state.
//!
//! One record per launched token type, created at token-creation time and
//! advanced exactly once per trade by the pricing engine's output. Virtual
//! reserves shape the price curve and always cover the real reserves; when
//! the real token reserves reach zero the curve is exhausted and accepts no
//! further buys.

use vstd::prelude::*;
use crate::keys::Pubkey;

verus! {

/// Mutable reserve state of one launched token type.
#[derive(Clone, Copy, Debug, PartialEq, Eq, Structural)]
pub struct BondingCurve {
    /// Native-currency reserves used for pricing.
    pub virtual_sol_reserves: u64,
    /// Token reserves used for pricing.
    pub virtual_token_reserves: u64,
    /// Native currency actually held for the curve.
    pub real_sol_reserves: u64,
    /// Tokens actually available for sale on the curve.
    pub real_token_reserves: u64,
    /// Total supply minted for the token type.
    pub token_total_supply: u64,
    /// Whether the curve has been closed to trading.
    pub complete: bool,
    /// Native currency moved to an external pool at migration.
    pub pool_sol_amount: u64,
    /// Tokens moved to an external pool at migration.
    pub pool_token_amount: u64,
    /// The participant who launched the token type.
    pub creator: Pubkey,
    /// The token type priced by this curve.
    pub mint: Pubkey,
    /// Creation timestamp, in seconds.
    pub create_time: u64,
    /// Timestamp of the latest reserve update, in seconds.
    pub update_time: u64,
}

impl BondingCurve {
    /// Virtual reserves always cover the real reserves they price.
    pub open spec fn wf(self) -> bool {
        &&& self.virtual_token_reserves >= self.real_token_reserves
        &&& self.virtual_sol_reserves >= self.real_sol_reserves
    }
}

} // verus!
