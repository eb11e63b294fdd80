//! Error taxonomy of the exchange.
//!
//! Precondition violations are rejected before any state mutation, guard
//! violations after pricing but before any transfer, and escrow-solvency
//! violations abort the whole request; every rejected request leaves all
//! ledgers exactly as they were.

use vstd::prelude::*;

verus! {

/// Every way a request to the exchange can be rejected.
#[derive(Clone, Copy, Debug, PartialEq, Eq, Structural)]
pub enum CurveLaunchpadError {
    /// The global configuration was already initialized.
    AlreadyInitialized,
    /// The global configuration has not been initialized yet.
    NotInitialized,
    /// The caller is not the configured authority.
    InvalidAuthority,
    /// The bonding curve is complete and accepts no further trades.
    BondingCurveComplete,
    /// The bonding curve has not completed yet.
    BondingCurveNotComplete,
    /// Not enough tokens on the curve or in the seller's balance.
    InsufficientTokens,
    /// The buyer's native-currency balance cannot cover the cost.
    InsufficientSOL,
    /// The cost including fee exceeds the buyer's stated maximum.
    MaxSOLCostExceeded,
    /// The proceeds minus fee fall below the seller's stated minimum.
    MinSOLOutputExceeded,
    /// A buy must request at least one token base unit.
    MinBuy,
    /// A sell must offer at least one token base unit.
    MinSell,
    /// The named fee recipient is not the configured one.
    InvalidFeeRecipient,
    /// The caller is not the configured withdraw authority.
    InvalidWithdrawAuthority,
    /// The wrapped native-currency token type is not the expected one.
    WrongWSOLMint,
    /// The textual mint address does not carry the required suffix.
    InvalidMintAddress,
    /// The curve's proceeds were already withdrawn.
    AlreadyWithdraw,
    /// The escrow's balance does not cover its recorded net inflow.
    FeeAccountStatusAbnormal,
    /// The referral node has no claimable profit.
    NotClaimableFee,
    /// The referral node has not been initialized.
    InviteAccountNotInit,
    /// The referral node request is malformed (such as a self-parent).
    InviteAccountError,
}

} // verus!
