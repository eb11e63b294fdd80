//! Operator updates to the global configuration.
//!
//! The hosting platform has already verified that the caller is the
//! configured authority before any of these run.

use vstd::prelude::*;
use crate::errors::CurveLaunchpadError;
use crate::global::Global;
use crate::keys::Pubkey;

verus! {

/// Replaces the reserve and supply seed values every new bonding curve
/// starts from. Rejected unchanged while the configuration is uninitialized.
pub fn set_amm_params(
    global: &mut Global,
    initial_virtual_token_reserves: u64,
    initial_virtual_sol_reserves: u64,
    initial_real_token_reserves: u64,
    initial_token_supply: u64,
) -> (result: Result<(), CurveLaunchpadError>)
    ensures
        result is Ok <==> old(global).initialized,
        result == Err::<(), CurveLaunchpadError>(CurveLaunchpadError::NotInitialized)
            <==> !old(global).initialized,
        result is Err ==> *final(global) == *old(global),
        result is Ok ==> *final(global) == (Global {
            initial_virtual_token_reserves,
            initial_virtual_sol_reserves,
            initial_real_token_reserves,
            initial_token_supply,
            ..*old(global)
        }),
{
    if !global.initialized {
        return Err(CurveLaunchpadError::NotInitialized);
    }
    global.initial_virtual_token_reserves = initial_virtual_token_reserves;
    global.initial_virtual_sol_reserves = initial_virtual_sol_reserves;
    global.initial_real_token_reserves = initial_real_token_reserves;
    global.initial_token_supply = initial_token_supply;
    Ok(())
}

/// Replaces the protocol fee recipient and the protocol and referral fee
/// basis points. The creator fee and withdraw authority are accepted but
/// left as they are. Rejected unchanged while the configuration is
/// uninitialized.
#[allow(unused_variables)]
pub fn set_fee_params(
    global: &mut Global,
    fee_recipient: Pubkey,
    fee_basis_points: u64,
    creator_fee_basis_points: u64,
    withdraw_authority: Pubkey,
    invite_fee_basis_points: u64,
) -> (result: Result<(), CurveLaunchpadError>)
    ensures
        result is Ok <==> old(global).initialized,
        result == Err::<(), CurveLaunchpadError>(CurveLaunchpadError::NotInitialized)
            <==> !old(global).initialized,
        result is Err ==> *final(global) == *old(global),
        result is Ok ==> *final(global) == (Global {
            fee_recipient,
            fee_basis_points,
            invite_fee_basis_points,
            ..*old(global)
        }),
{
    if !global.initialized {
        return Err(CurveLaunchpadError::NotInitialized);
    }
    global.fee_recipient = fee_recipient;
    global.fee_basis_points = fee_basis_points;
    global.invite_fee_basis_points = invite_fee_basis_points;
    Ok(())
}

/// Replaces the protocol token-allocation recipient and the protocol fee
/// recipient. Always succeeds.
pub fn set_protocol_fee_address(
    global: &mut Global,
    protocol_token_alloc_recipient: Pubkey,
    fee_recipient: Pubkey,
) -> (result: Result<(), CurveLaunchpadError>)
    ensures
        result is Ok,
        *final(global) == (Global {
            protocol_token_alloc_recipient,
            fee_recipient,
            ..*old(global)
        }),
{
    global.protocol_token_alloc_recipient = protocol_token_alloc_recipient;
    global.fee_recipient = fee_recipient;
    Ok(())
}

} // verus!
