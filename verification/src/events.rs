//! Structured records produced by the core.
//!
//! The core reports every settlement as a plain record; an external logging
//! collaborator serializes and publishes them. A trade settlement record is
//! produced for every executed buy or sell, a curve-exhaustion record exactly
//! once, at the trade whose settlement first drives the real token reserves
//! to zero, and a referral-claim record for every paid claim.

use vstd::prelude::*;
use crate::keys::Pubkey;

verus! {

/// Record of a newly launched token type.
#[derive(Clone, Debug)]
pub struct CreateEvent {
    /// Display name of the token type.
    pub name: String,
    /// Ticker symbol of the token type.
    pub symbol: String,
    /// Metadata location of the token type.
    pub uri: String,
    /// The token type that was launched.
    pub mint: Pubkey,
    /// Opaque launch configuration reference.
    pub memecoin_config: String,
    /// The participant who launched the token type.
    pub creator: Pubkey,
    /// Creation timestamp, in seconds.
    pub created_time: u64,
    /// The holding that received the initial supply.
    pub destination: Pubkey,
    /// Free-form description of the token type.
    pub description: String,
    /// Website of the token type.
    pub website: String,
    /// Telegram contact of the token type.
    pub telegram: String,
    /// Twitter contact of the token type.
    pub twitter: String,
    /// Number of decimals of the token type.
    pub decimal: u8,
}

/// Settlement record of one executed trade.
#[derive(Clone, Debug)]
pub struct TradeEvent {
    /// The token type that was traded.
    pub mint: Pubkey,
    /// Native currency moved onto or off the curve.
    pub sol_amount: u64,
    /// Tokens moved off or onto the curve.
    pub token_amount: u64,
    /// Direction of the trade.
    pub is_buy: bool,
    /// The trading participant.
    pub user: Pubkey,
    /// Settlement timestamp, in seconds.
    pub timestamp: i64,
    /// Virtual native-currency reserves after the trade.
    pub virtual_sol_reserves: u64,
    /// Virtual token reserves after the trade.
    pub virtual_token_reserves: u64,
    /// Real native-currency reserves after the trade.
    pub real_sol_reserves: u64,
    /// Real token reserves after the trade.
    pub real_token_reserves: u64,
    /// Opaque caller-supplied correlation token.
    pub hash: String,
}

/// Record of a bonding curve reaching exhaustion.
#[derive(Clone, Debug)]
pub struct CompleteEvent {
    /// The participant whose trade exhausted the curve.
    pub user: Pubkey,
    /// The token type whose curve was exhausted.
    pub mint: Pubkey,
    /// The exhausted curve's record address.
    pub bonding_curve: Pubkey,
    /// Exhaustion timestamp, in seconds.
    pub timestamp: i64,
}

/// Record of a configuration change.
#[derive(Clone, Copy, Debug, PartialEq, Eq, Structural)]
pub struct SetParamsEvent {
    /// The configured protocol fee recipient.
    pub fee_recipient: Pubkey,
    /// The configured withdraw authority.
    pub withdraw_authority: Pubkey,
    /// Virtual token reserves a new curve starts with.
    pub initial_virtual_token_reserves: u64,
    /// Virtual native-currency reserves a new curve starts with.
    pub initial_virtual_sol_reserves: u64,
    /// Real token reserves a new curve starts with.
    pub initial_real_token_reserves: u64,
    /// Token supply minted for every new token type.
    pub initial_token_supply: u64,
    /// Protocol fee, in basis points.
    pub fee_basis_points: u64,
}

/// Record of a paid referral-profit claim.
#[derive(Clone, Copy, Debug, PartialEq, Eq, Structural)]
pub struct ClaimInviteProfitEvent {
    /// The claiming participant.
    pub user: Pubkey,
    /// The amount paid out, in native base units.
    pub amount: u64,
    /// Claim timestamp, in seconds.
    pub timestamp: i64,
}

} // verus!
