//! One-time bootstrap of the global configuration.

use vstd::prelude::*;
use crate::errors::CurveLaunchpadError;
use crate::global::{Global, DEFAULT_TOKEN_SUPPLY};
use crate::keys::Pubkey;

verus! {

/// Marks the configuration initialized and fills in its defaults, with the
/// bootstrapping `authority` as every recorded authority and recipient.
/// A configuration that is already initialized is rejected unchanged.
pub fn initialize(global: &mut Global, authority: Pubkey) -> (result: Result<
    (),
    CurveLaunchpadError,
>)
    ensures
        result is Ok <==> !old(global).initialized,
        result == Err::<(), CurveLaunchpadError>(CurveLaunchpadError::AlreadyInitialized)
            <==> old(global).initialized,
        result is Err ==> *final(global) == *old(global),
        result is Ok ==> *final(global) == (Global {
            authority,
            withdraw_authority: authority,
            fee_recipient: authority,
            initialized: true,
            initial_token_supply: DEFAULT_TOKEN_SUPPLY,
            initial_virtual_token_reserves: 1_075_000_000_000_000,
            fee_basis_points: 50,
            creator_fee_basis_points: 35,
            protocol_token_alloc_points: 50,
            protocol_token_alloc_recipient: authority,
            invite_fee_basis_points: 15,
            ..*old(global)
        }),
{
    if global.initialized {
        return Err(CurveLaunchpadError::AlreadyInitialized);
    }
    global.authority = authority;
    global.withdraw_authority = authority;
    global.fee_recipient = authority;
    global.initialized = true;
    global.initial_token_supply = DEFAULT_TOKEN_SUPPLY;
    global.initial_virtual_token_reserves = 1_075_000_000_000_000;
    global.fee_basis_points = 50;
    global.creator_fee_basis_points = 35;
    global.protocol_token_alloc_points = 50;
    global.protocol_token_alloc_recipient = authority;
    global.invite_fee_basis_points = 15;
    Ok(())
}

} // verus!
