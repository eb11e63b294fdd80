//! The sell use case.
//!
//! A validated sell request returns tokens to a bonding curve in exchange
//! for native-currency proceeds, with the fee subtracted from the proceeds
//! rather than added to the cost. Preconditions are checked before pricing,
//! the minimum-proceeds guard after pricing but before any transfer, and
//! escrow solvency before anything is committed; a rejected request leaves
//! every record exactly as it was.

use vstd::prelude::*;
use crate::amm::{sell_sol_output, AMM};
use crate::bonding_curve::BondingCurve;
use crate::buy::curve_snapshot;
use crate::errors::CurveLaunchpadError;
use crate::events::TradeEvent;
use crate::fee_account::FeeAccount;
use crate::fees::{calculate_fee, fee_of, lemma_fee_le_amount};
use crate::global::Global;
use crate::keys::Pubkey;
use crate::user_invite_stats::UserInviteStats;

verus! {

/// What a settled sell moves: the seller returns `token_amount` tokens onto
/// the curve and receives `sol_amount` less `fee`; the fee goes into the
/// escrow.
pub struct SellSettlement {
    /// Native currency the curve pays out in all; the seller receives this
    /// less `fee`.
    pub sol_amount: u64,
    /// Tokens returned to the curve's holding by the seller.
    pub token_amount: u64,
    /// Fee withheld from the proceeds into the escrow.
    pub fee: u64,
    /// The settlement record of this trade.
    pub trade_event: TradeEvent,
}

/// The preconditions of a sell: the curve still trades, the seller has opted
/// into the referral ledger, the offer is for at least one token, and both
/// the seller's and the curve holding's balances cover it.
pub open spec fn sell_request_accepted(
    curve: BondingCurve,
    user_invite: UserInviteStats,
    user_token_balance: u64,
    curve_token_balance: u64,
    token_amount: u64,
) -> bool {
    &&& !curve.complete
    &&& user_invite.is_init
    &&& user_token_balance >= token_amount
    &&& curve_token_balance >= token_amount
    &&& token_amount > 0
}

/// Native-currency proceeds of the offered tokens at the curve's current
/// reserves.
pub open spec fn sell_proceeds(curve: BondingCurve, token_amount: u64) -> int {
    sell_sol_output(
        curve.virtual_sol_reserves as int,
        curve.virtual_token_reserves as int,
        token_amount as int,
    )
}

/// Total fee withheld from a sell: the proceeds at the summed basis points.
pub open spec fn sell_fee(global: Global, curve: BondingCurve, token_amount: u64) -> int {
    fee_of(sell_proceeds(curve, token_amount), global.total_fee_basis_points())
}

/// The minimum-proceeds guard of a sell: what reaches the seller after the
/// fee meets the stated minimum.
pub open spec fn sell_guard_passes(
    global: Global,
    curve: BondingCurve,
    token_amount: u64,
    min_sol_output: u64,
) -> bool {
    sell_proceeds(curve, token_amount) - sell_fee(global, curve, token_amount) >= min_sol_output
}

/// Executes a sell of `token_amount` tokens against `bonding_curve`.
///
/// `user_token_balance` is the seller's live token balance,
/// `curve_token_balance` the live token balance of the curve's holding, and
/// `fee_account_balance` the escrow's actual balance, all read before the
/// trade. Each error names the first rejected stage, if and only if that
/// stage rejects; on success every record advances exactly as the returned
/// settlement says.
pub fn sell(
    global: &Global,
    bonding_curve: &mut BondingCurve,
    fee_account: &mut FeeAccount,
    user_invite_account: &mut UserInviteStats,
    parent_invite_account: &mut UserInviteStats,
    fee_recipient_invite_account: &mut UserInviteStats,
    creator_fee_recipient_invite_account: &mut UserInviteStats,
    user_token_balance: u64,
    curve_token_balance: u64,
    fee_account_balance: u64,
    user: Pubkey,
    token_amount: u64,
    min_sol_output: u64,
    hash: String,
    timestamp: i64,
) -> (result: Result<SellSettlement, CurveLaunchpadError>)
    requires
        global.wf(),
        old(fee_account).wf(),
        sell_request_accepted(
            *old(bonding_curve),
            *old(user_invite_account),
            user_token_balance,
            curve_token_balance,
            token_amount,
        ) ==> curve_snapshot(*old(bonding_curve), *global).sell_ok(token_amount as int),
        (sell_request_accepted(
            *old(bonding_curve),
            *old(user_invite_account),
            user_token_balance,
            curve_token_balance,
            token_amount,
        ) && sell_guard_passes(*global, *old(bonding_curve), token_amount, min_sol_output)) ==> ({
            let fee = sell_fee(*global, *old(bonding_curve), token_amount);
            &&& old(fee_account).received + fee <= u64::MAX
            &&& fee_account_balance + fee <= u64::MAX
        }),
        (sell_request_accepted(
            *old(bonding_curve),
            *old(user_invite_account),
            user_token_balance,
            curve_token_balance,
            token_amount,
        ) && sell_guard_passes(*global, *old(bonding_curve), token_amount, min_sol_output) && old(
            fee_account,
        ).solvent(fee_account_balance as int)) ==> ({
            let proceeds = sell_proceeds(*old(bonding_curve), token_amount);
            &&& old(fee_recipient_invite_account).profit_claimable + fee_of(
                proceeds,
                global.fee_basis_points as int,
            ) <= u64::MAX
            &&& old(creator_fee_recipient_invite_account).profit_claimable + fee_of(
                proceeds,
                global.creator_fee_basis_points as int,
            ) <= u64::MAX
            &&& old(parent_invite_account).profit_claimable + fee_of(
                proceeds,
                global.invite_fee_basis_points as int,
            ) <= u64::MAX
            &&& old(parent_invite_account).profit_from_child + fee_of(
                proceeds,
                global.invite_fee_basis_points as int,
            ) <= u64::MAX
            &&& old(user_invite_account).profit_to_parent + fee_of(
                proceeds,
                global.invite_fee_basis_points as int,
            ) <= u64::MAX
        }),
    ensures
        result == Err::<SellSettlement, CurveLaunchpadError>(
            CurveLaunchpadError::BondingCurveComplete,
        ) <==> old(bonding_curve).complete,
        result == Err::<SellSettlement, CurveLaunchpadError>(
            CurveLaunchpadError::InviteAccountError,
        ) <==> (!old(bonding_curve).complete && !old(user_invite_account).is_init),
        result == Err::<SellSettlement, CurveLaunchpadError>(
            CurveLaunchpadError::InsufficientTokens,
        ) <==> (!old(bonding_curve).complete && old(user_invite_account).is_init && (
        user_token_balance < token_amount || curve_token_balance < token_amount)),
        result == Err::<SellSettlement, CurveLaunchpadError>(CurveLaunchpadError::MinSell) <==> (
        !old(bonding_curve).complete && old(user_invite_account).is_init && user_token_balance
            >= token_amount && curve_token_balance >= token_amount && token_amount == 0),
        result == Err::<SellSettlement, CurveLaunchpadError>(
            CurveLaunchpadError::MinSOLOutputExceeded,
        ) <==> (sell_request_accepted(
            *old(bonding_curve),
            *old(user_invite_account),
            user_token_balance,
            curve_token_balance,
            token_amount,
        ) && !sell_guard_passes(*global, *old(bonding_curve), token_amount, min_sol_output)),
        result == Err::<SellSettlement, CurveLaunchpadError>(
            CurveLaunchpadError::FeeAccountStatusAbnormal,
        ) <==> (sell_request_accepted(
            *old(bonding_curve),
            *old(user_invite_account),
            user_token_balance,
            curve_token_balance,
            token_amount,
        ) && sell_guard_passes(*global, *old(bonding_curve), token_amount, min_sol_output) && !old(
            fee_account,
        ).solvent(fee_account_balance as int)),
        result is Err ==> {
            &&& *final(bonding_curve) == *old(bonding_curve)
            &&& *final(fee_account) == *old(fee_account)
            &&& *final(user_invite_account) == *old(user_invite_account)
            &&& *final(parent_invite_account) == *old(parent_invite_account)
            &&& *final(fee_recipient_invite_account) == *old(fee_recipient_invite_account)
            &&& *final(creator_fee_recipient_invite_account) == *old(
                creator_fee_recipient_invite_account,
            )
        },
        result is Ok <==> (sell_request_accepted(
            *old(bonding_curve),
            *old(user_invite_account),
            user_token_balance,
            curve_token_balance,
            token_amount,
        ) && sell_guard_passes(*global, *old(bonding_curve), token_amount, min_sol_output) && old(
            fee_account,
        ).solvent(fee_account_balance as int)),
        result is Ok ==> ({
            let settlement = result->Ok_0;
            let proceeds = sell_proceeds(*old(bonding_curve), token_amount);
            let fee = sell_fee(*global, *old(bonding_curve), token_amount);
            let protocol_fee = fee_of(proceeds, global.fee_basis_points as int);
            let creator_fee = fee_of(proceeds, global.creator_fee_basis_points as int);
            let invite_fee = fee_of(proceeds, global.invite_fee_basis_points as int);
            &&& settlement.sol_amount == proceeds
            &&& settlement.token_amount == token_amount
            &&& settlement.fee == fee
            &&& 0 <= fee <= proceeds
            &&& *final(bonding_curve) == (BondingCurve {
                virtual_sol_reserves: (old(bonding_curve).virtual_sol_reserves - proceeds) as u64,
                virtual_token_reserves: (old(bonding_curve).virtual_token_reserves
                    + token_amount) as u64,
                real_sol_reserves: (old(bonding_curve).real_sol_reserves - proceeds) as u64,
                real_token_reserves: (old(bonding_curve).real_token_reserves
                    + token_amount) as u64,
                ..*old(bonding_curve)
            })
            &&& *final(fee_account) == (FeeAccount {
                received: (old(fee_account).received + fee) as u64,
                ..*old(fee_account)
            })
            &&& final(fee_account).solvent(fee_account_balance + fee)
            &&& *final(fee_recipient_invite_account) == (UserInviteStats {
                profit_claimable: (old(fee_recipient_invite_account).profit_claimable
                    + protocol_fee) as u64,
                ..*old(fee_recipient_invite_account)
            })
            &&& *final(creator_fee_recipient_invite_account) == (UserInviteStats {
                profit_claimable: (old(creator_fee_recipient_invite_account).profit_claimable
                    + creator_fee) as u64,
                ..*old(creator_fee_recipient_invite_account)
            })
            &&& *final(parent_invite_account) == (UserInviteStats {
                profit_claimable: (old(parent_invite_account).profit_claimable + invite_fee) as u64,
                profit_from_child: (old(parent_invite_account).profit_from_child
                    + invite_fee) as u64,
                ..*old(parent_invite_account)
            })
            &&& *final(user_invite_account) == (UserInviteStats {
                profit_to_parent: (old(user_invite_account).profit_to_parent + invite_fee) as u64,
                ..*old(user_invite_account)
            })
            &&& settlement.trade_event == (TradeEvent {
                mint: old(bonding_curve).mint,
                sol_amount: proceeds as u64,
                token_amount,
                is_buy: false,
                user,
                timestamp,
                virtual_sol_reserves: (old(bonding_curve).virtual_sol_reserves - proceeds) as u64,
                virtual_token_reserves: (old(bonding_curve).virtual_token_reserves
                    + token_amount) as u64,
                real_sol_reserves: (old(bonding_curve).real_sol_reserves - proceeds) as u64,
                real_token_reserves: (old(bonding_curve).real_token_reserves
                    + token_amount) as u64,
                hash,
            })
        }),
{
    if bonding_curve.complete {
        return Err(CurveLaunchpadError::BondingCurveComplete);
    }
    if !user_invite_account.is_init {
        return Err(CurveLaunchpadError::InviteAccountError);
    }
    if user_token_balance < token_amount {
        return Err(CurveLaunchpadError::InsufficientTokens);
    }
    if curve_token_balance < token_amount {
        return Err(CurveLaunchpadError::InsufficientTokens);
    }
    if token_amount == 0 {
        return Err(CurveLaunchpadError::MinSell);
    }
    let mut amm_state = AMM::new(
        bonding_curve.virtual_sol_reserves as u128,
        bonding_curve.virtual_token_reserves as u128,
        bonding_curve.real_sol_reserves as u128,
        bonding_curve.real_token_reserves as u128,
        global.initial_virtual_token_reserves as u128,
    );
    let priced = amm_state.apply_sell(token_amount as u128);
    let sell_result = match priced {
        Some(r) => r,
        None => {
            proof {
                assert(false);
            }
            return Err(CurveLaunchpadError::MinSell);
        },
    };
    proof {
        lemma_fee_le_amount(sell_result.sol_amount as int, global.total_fee_basis_points());
        lemma_fee_le_amount(sell_result.sol_amount as int, global.fee_basis_points as int);
        lemma_fee_le_amount(sell_result.sol_amount as int, global.creator_fee_basis_points as int);
        lemma_fee_le_amount(sell_result.sol_amount as int, global.invite_fee_basis_points as int);
    }
    let fee = calculate_fee(
        sell_result.sol_amount,
        global.fee_basis_points + global.creator_fee_basis_points + global.invite_fee_basis_points,
    );
    let sell_amount_minus_fee = sell_result.sol_amount - fee;
    if sell_amount_minus_fee < min_sol_output {
        return Err(CurveLaunchpadError::MinSOLOutputExceeded);
    }
    let updated_fee_account = FeeAccount {
        received: fee_account.received + fee,
        sent: fee_account.sent,
    };
    let is_ok = updated_fee_account.check(fee_account_balance + fee);
    if !is_ok {
        return Err(CurveLaunchpadError::FeeAccountStatusAbnormal);
    }
    let protocol_fee = calculate_fee(sell_result.sol_amount, global.fee_basis_points);
    let creator_fee = calculate_fee(sell_result.sol_amount, global.creator_fee_basis_points);
    let invite_fee = calculate_fee(sell_result.sol_amount, global.invite_fee_basis_points);
    *fee_account = updated_fee_account;
    fee_recipient_invite_account.profit_claimable = fee_recipient_invite_account.profit_claimable
        + protocol_fee;
    creator_fee_recipient_invite_account.profit_claimable =
        creator_fee_recipient_invite_account.profit_claimable + creator_fee;
    parent_invite_account.profit_claimable = parent_invite_account.profit_claimable + invite_fee;
    user_invite_account.profit_to_parent = user_invite_account.profit_to_parent + invite_fee;
    parent_invite_account.profit_from_child = parent_invite_account.profit_from_child + invite_fee;
    bonding_curve.real_token_reserves = amm_state.real_token_reserves as u64;
    bonding_curve.real_sol_reserves = amm_state.real_sol_reserves as u64;
    bonding_curve.virtual_token_reserves = amm_state.virtual_token_reserves as u64;
    bonding_curve.virtual_sol_reserves = amm_state.virtual_sol_reserves as u64;
    let trade_event = TradeEvent {
        mint: bonding_curve.mint,
        sol_amount: sell_result.sol_amount,
        token_amount: sell_result.token_amount,
        is_buy: false,
        user,
        timestamp,
        virtual_sol_reserves: bonding_curve.virtual_sol_reserves,
        virtual_token_reserves: bonding_curve.virtual_token_reserves,
        real_sol_reserves: bonding_curve.real_sol_reserves,
        real_token_reserves: bonding_curve.real_token_reserves,
        hash,
    };
    Ok(
        SellSettlement {
            sol_amount: sell_result.sol_amount,
            token_amount: sell_result.token_amount,
            fee,
            trade_event,
        },
    )
}

} // verus!
