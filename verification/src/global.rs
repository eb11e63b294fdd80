//! The global configuration singleton.
//!
//! Created once by an authorized operator and read by every trade: fee basis
//! points for the protocol, creator and referral components, the seed values
//! every new bonding curve starts from, and the configured recipients and
//! authorities. No trade or creation request is accepted before it is marked
//! initialized.

use vstd::prelude::*;
use crate::keys::Pubkey;

verus! {

/// Default total token supply minted for a newly launched token type.
pub const DEFAULT_TOKEN_SUPPLY: u64 = 1_000_000_000_000_000;

/// Default number of decimals of a newly launched token type.
pub const DEFAULT_DECIMALS: u8 = 6;

/// The one process-wide configuration record.
#[derive(Clone, Copy, Debug, PartialEq, Eq, Structural)]
pub struct Global {
    /// The operator allowed to change this configuration.
    pub authority: Pubkey,
    /// Set once by the bootstrap step; gates every other operation.
    pub initialized: bool,
    /// The node credited with the protocol's share of every trade fee.
    pub fee_recipient: Pubkey,
    /// Virtual token reserves a new bonding curve starts with.
    pub initial_virtual_token_reserves: u64,
    /// Virtual native-currency reserves a new bonding curve starts with.
    pub initial_virtual_sol_reserves: u64,
    /// Real token reserves a new bonding curve starts with.
    pub initial_real_token_reserves: u64,
    /// Real native-currency reserves a new bonding curve starts with.
    pub initial_real_sol_reserves: u64,
    /// Token supply minted for every new token type.
    pub initial_token_supply: u64,
    /// Protocol fee, in basis points of the settlement amount.
    pub fee_basis_points: u64,
    /// The authority allowed to withdraw completed curves.
    pub withdraw_authority: Pubkey,
    /// Token-creator fee, in basis points of the settlement amount.
    pub creator_fee_basis_points: u64,
    /// Share of new token supply allocated to the protocol, in points.
    pub protocol_token_alloc_points: u64,
    /// Recipient of the protocol's token allocation.
    pub protocol_token_alloc_recipient: Pubkey,
    /// Referral fee, in basis points of the settlement amount.
    pub invite_fee_basis_points: u64,
}

impl Global {
    /// Combined basis points of the protocol, creator and referral fees.
    pub open spec fn total_fee_basis_points(self) -> int {
        self.fee_basis_points + self.creator_fee_basis_points + self.invite_fee_basis_points
    }

    /// The combined fee never exceeds the settlement amount itself.
    pub open spec fn wf(self) -> bool {
        self.total_fee_basis_points() <= 10_000
    }
}

} // verus!
