//! Seeding a new bonding curve at token-creation time.
//!
//! The hosting platform mints the initial supply and registers metadata;
//! the core's share of the work is validating the request and seeding the
//! curve record from the global configuration's seed values.

use vstd::prelude::*;
use crate::bonding_curve::BondingCurve;
use crate::errors::CurveLaunchpadError;
use crate::global::Global;
use crate::keys::Pubkey;

verus! {

/// The ASCII-lowercase image of a byte: letters `A` through `Z` map to their
/// lowercase forms, every other byte stays as it is.
pub open spec fn ascii_to_lower(c: u8) -> u8 {
    if 65 <= c <= 90 {
        (c + 32) as u8
    } else {
        c
    }
}

/// The textual mint address ends with `meme`, compared without regard to
/// ASCII case.
pub open spec fn has_meme_suffix(text: Seq<u8>) -> bool {
    &&& text.len() >= 4
    &&& ascii_to_lower(text[text.len() - 4]) == 109
    &&& ascii_to_lower(text[text.len() - 3]) == 101
    &&& ascii_to_lower(text[text.len() - 2]) == 109
    &&& ascii_to_lower(text[text.len() - 1]) == 101
}

fn lower_byte(c: u8) -> (r: u8)
    ensures
        r == ascii_to_lower(c),
{
    if c >= 65 && c <= 90 {
        c + 32
    } else {
        c
    }
}

fn text_has_meme_suffix(text: &Vec<u8>) -> (r: bool)
    ensures
        r == has_meme_suffix(text@),
{
    let n = text.len();
    if n < 4 {
        return false;
    }
    lower_byte(text[n - 4]) == 109 && lower_byte(text[n - 3]) == 101 && lower_byte(text[n - 2])
        == 109 && lower_byte(text[n - 1]) == 101
}

/// Seeds the bonding curve of a newly launched token type.
///
/// Rejected while the configuration is uninitialized, and for a mint whose
/// textual address (`mint_text`) does not end with `meme` up to ASCII case.
/// On success the curve starts from the configuration's seed reserves and
/// supply, open for trading, with no pool migration recorded.
pub fn create(
    global: &Global,
    bonding_curve: &mut BondingCurve,
    creator: Pubkey,
    mint: Pubkey,
    mint_text: &Vec<u8>,
    create_time: u64,
) -> (result: Result<(), CurveLaunchpadError>)
    ensures
        result is Ok <==> (global.initialized && has_meme_suffix(mint_text@)),
        result == Err::<(), CurveLaunchpadError>(CurveLaunchpadError::NotInitialized)
            <==> !global.initialized,
        result == Err::<(), CurveLaunchpadError>(CurveLaunchpadError::InvalidMintAddress)
            <==> (global.initialized && !has_meme_suffix(mint_text@)),
        result is Err ==> *final(bonding_curve) == *old(bonding_curve),
        result is Ok ==> *final(bonding_curve) == (BondingCurve {
            virtual_sol_reserves: global.initial_virtual_sol_reserves,
            virtual_token_reserves: global.initial_virtual_token_reserves,
            real_sol_reserves: global.initial_real_sol_reserves,
            real_token_reserves: global.initial_real_token_reserves,
            token_total_supply: global.initial_token_supply,
            complete: false,
            pool_sol_amount: 0,
            pool_token_amount: 0,
            creator,
            mint,
            create_time,
            update_time: 0,
        }),
{
    if !global.initialized {
        return Err(CurveLaunchpadError::NotInitialized);
    }
    if !text_has_meme_suffix(mint_text) {
        return Err(CurveLaunchpadError::InvalidMintAddress);
    }
    *bonding_curve = BondingCurve {
        virtual_sol_reserves: global.initial_virtual_sol_reserves,
        virtual_token_reserves: global.initial_virtual_token_reserves,
        real_sol_reserves: global.initial_real_sol_reserves,
        real_token_reserves: global.initial_real_token_reserves,
        token_total_supply: global.initial_token_supply,
        complete: false,
        pool_sol_amount: 0,
        pool_token_amount: 0,
        creator,
        mint,
        create_time,
        update_time: 0,
    };
    Ok(())
}

} // verus!
