//! The buy use case.
//!
//! A validated buy request removes tokens from a bonding curve in exchange
//! for native currency plus a fee. Preconditions are checked before pricing,
//! the slippage and balance guards after pricing but before any transfer,
//! and escrow solvency before anything is committed; a rejected request
//! leaves every record exactly as it was. The settlement names what moves so
//! the hosting layer can perform the transfers.

use vstd::prelude::*;
use crate::amm::{buy_sol_cost, AMM};
use crate::bonding_curve::BondingCurve;
use crate::errors::CurveLaunchpadError;
use crate::events::{CompleteEvent, TradeEvent};
use crate::fee_account::FeeAccount;
use crate::fees::{calculate_fee, fee_of, lemma_fee_le_amount};
use crate::global::Global;
use crate::keys::Pubkey;
use crate::user_invite_stats::UserInviteStats;

verus! {

/// What a settled buy moves: the buyer pays `sol_amount` onto the curve and
/// `fee` into the escrow, and receives `token_amount` tokens off the curve.
pub struct BuySettlement {
    /// Native currency the buyer pays onto the curve.
    pub sol_amount: u64,
    /// Tokens delivered to the buyer from the curve's holding.
    pub token_amount: u64,
    /// Fee the buyer pays into the escrow, on top of `sol_amount`.
    pub fee: u64,
    /// The settlement record of this trade.
    pub trade_event: TradeEvent,
    /// The exhaustion record, present exactly when this trade first drains
    /// the curve's real token reserves.
    pub complete_event: Option<CompleteEvent>,
}

/// The preconditions of a buy: the curve still trades, the buyer has opted
/// into the referral ledger, the request is for at least one token and the
/// curve's real reserves cover it.
pub open spec fn buy_request_accepted(
    curve: BondingCurve,
    user_invite: UserInviteStats,
    token_amount: u64,
) -> bool {
    &&& !curve.complete
    &&& user_invite.is_init
    &&& curve.real_token_reserves >= token_amount
    &&& token_amount > 0
}

/// The requested amount, clamped to the curve holding's live token balance
/// when that balance is the binding constraint.
pub open spec fn buy_fill(token_amount: u64, curve_token_balance: u64) -> int {
    if curve_token_balance < token_amount {
        curve_token_balance as int
    } else {
        token_amount as int
    }
}

/// The pricing snapshot a buy or sell is priced against: the curve's current
/// virtual and real reserves, widened to 128 bits.
pub open spec fn curve_snapshot(curve: BondingCurve, global: Global) -> AMM {
    AMM {
        virtual_sol_reserves: curve.virtual_sol_reserves as u128,
        virtual_token_reserves: curve.virtual_token_reserves as u128,
        real_sol_reserves: curve.real_sol_reserves as u128,
        real_token_reserves: curve.real_token_reserves as u128,
        initial_virtual_token_reserves: global.initial_virtual_token_reserves as u128,
    }
}

/// Native-currency cost of the clamped fill at the curve's current reserves.
pub open spec fn buy_cost(curve: BondingCurve, token_amount: u64, curve_token_balance: u64) -> int {
    buy_sol_cost(
        curve.virtual_sol_reserves as int,
        curve.virtual_token_reserves as int,
        buy_fill(token_amount, curve_token_balance),
    )
}

/// Total fee withheld from a buy: the cost at the summed basis points.
pub open spec fn buy_fee(
    global: Global,
    curve: BondingCurve,
    token_amount: u64,
    curve_token_balance: u64,
) -> int {
    fee_of(buy_cost(curve, token_amount, curve_token_balance), global.total_fee_basis_points())
}

/// What the buyer pays in all: cost plus fee.
pub open spec fn buy_total_cost(
    global: Global,
    curve: BondingCurve,
    token_amount: u64,
    curve_token_balance: u64,
) -> int {
    buy_cost(curve, token_amount, curve_token_balance) + buy_fee(
        global,
        curve,
        token_amount,
        curve_token_balance,
    )
}

/// The slippage and balance guards of a buy: the total cost stays within the
/// buyer's stated maximum and spendable balance.
pub open spec fn buy_guards_pass(
    global: Global,
    curve: BondingCurve,
    token_amount: u64,
    curve_token_balance: u64,
    max_sol_cost: u64,
    user_sol_balance: u64,
) -> bool {
    let total = buy_total_cost(global, curve, token_amount, curve_token_balance);
    &&& total <= max_sol_cost
    &&& user_sol_balance >= total
}

/// Executes a buy of `token_amount` tokens against `bonding_curve`.
///
/// `curve_token_balance` is the live token balance of the curve's holding,
/// `user_sol_balance` the buyer's spendable native currency, and
/// `fee_account_balance` the escrow's actual balance, all read before the
/// trade. Each error names the first rejected stage, if and only if that
/// stage rejects; on success every record advances exactly as the returned
/// settlement says, and the exhaustion record is present exactly when the
/// fill drains the curve's real token reserves to zero.
///
/// Exhaustion is only reported: the curve's `complete` flag is deliberately
/// not raised here, and a later buy is rejected by the empty real reserves
/// instead.
pub fn buy(
    global: &Global,
    bonding_curve: &mut BondingCurve,
    fee_account: &mut FeeAccount,
    user_invite_account: &mut UserInviteStats,
    parent_invite_account: &mut UserInviteStats,
    fee_recipient_invite_account: &mut UserInviteStats,
    creator_fee_recipient_invite_account: &mut UserInviteStats,
    bonding_curve_key: Pubkey,
    curve_token_balance: u64,
    user_sol_balance: u64,
    fee_account_balance: u64,
    user: Pubkey,
    token_amount: u64,
    max_sol_cost: u64,
    hash: String,
    timestamp: i64,
) -> (result: Result<BuySettlement, CurveLaunchpadError>)
    requires
        global.wf(),
        old(fee_account).wf(),
        0 <= timestamp,
        buy_request_accepted(*old(bonding_curve), *old(user_invite_account), token_amount)
            ==> curve_snapshot(*old(bonding_curve), *global).buy_ok(
            buy_fill(token_amount, curve_token_balance),
        ),
        (buy_request_accepted(*old(bonding_curve), *old(user_invite_account), token_amount)
            && buy_guards_pass(
            *global,
            *old(bonding_curve),
            token_amount,
            curve_token_balance,
            max_sol_cost,
            user_sol_balance,
        )) ==> ({
            let fee = buy_fee(*global, *old(bonding_curve), token_amount, curve_token_balance);
            &&& old(fee_account).received + fee <= u64::MAX
            &&& fee_account_balance + fee <= u64::MAX
        }),
        (buy_request_accepted(*old(bonding_curve), *old(user_invite_account), token_amount)
            && buy_guards_pass(
            *global,
            *old(bonding_curve),
            token_amount,
            curve_token_balance,
            max_sol_cost,
            user_sol_balance,
        ) && old(fee_account).solvent(fee_account_balance as int)) ==> ({
            let cost = buy_cost(*old(bonding_curve), token_amount, curve_token_balance);
            &&& old(fee_recipient_invite_account).profit_claimable + fee_of(
                cost,
                global.fee_basis_points as int,
            ) <= u64::MAX
            &&& old(creator_fee_recipient_invite_account).profit_claimable + fee_of(
                cost,
                global.creator_fee_basis_points as int,
            ) <= u64::MAX
            &&& old(parent_invite_account).profit_claimable + fee_of(
                cost,
                global.invite_fee_basis_points as int,
            ) <= u64::MAX
            &&& old(parent_invite_account).profit_from_child + fee_of(
                cost,
                global.invite_fee_basis_points as int,
            ) <= u64::MAX
            &&& old(user_invite_account).profit_to_parent + fee_of(
                cost,
                global.invite_fee_basis_points as int,
            ) <= u64::MAX
        }),
    ensures
        result == Err::<BuySettlement, CurveLaunchpadError>(
            CurveLaunchpadError::BondingCurveComplete,
        ) <==> old(bonding_curve).complete,
        result == Err::<BuySettlement, CurveLaunchpadError>(CurveLaunchpadError::InviteAccountError)
            <==> (!old(bonding_curve).complete && !old(user_invite_account).is_init),
        result == Err::<BuySettlement, CurveLaunchpadError>(CurveLaunchpadError::InsufficientTokens)
            <==> (!old(bonding_curve).complete && old(user_invite_account).is_init && old(
            bonding_curve,
        ).real_token_reserves < token_amount),
        result == Err::<BuySettlement, CurveLaunchpadError>(CurveLaunchpadError::MinBuy) <==> (!old(
            bonding_curve,
        ).complete && old(user_invite_account).is_init && old(bonding_curve).real_token_reserves
            >= token_amount && token_amount == 0),
        result == Err::<BuySettlement, CurveLaunchpadError>(CurveLaunchpadError::MaxSOLCostExceeded)
            <==> (buy_request_accepted(*old(bonding_curve), *old(user_invite_account), token_amount)
            && buy_total_cost(*global, *old(bonding_curve), token_amount, curve_token_balance)
            > max_sol_cost),
        result == Err::<BuySettlement, CurveLaunchpadError>(CurveLaunchpadError::InsufficientSOL)
            <==> (buy_request_accepted(*old(bonding_curve), *old(user_invite_account), token_amount)
            && buy_total_cost(*global, *old(bonding_curve), token_amount, curve_token_balance)
            <= max_sol_cost && user_sol_balance < buy_total_cost(
            *global,
            *old(bonding_curve),
            token_amount,
            curve_token_balance,
        )),
        result == Err::<BuySettlement, CurveLaunchpadError>(
            CurveLaunchpadError::FeeAccountStatusAbnormal,
        ) <==> (buy_request_accepted(*old(bonding_curve), *old(user_invite_account), token_amount)
            && buy_guards_pass(
            *global,
            *old(bonding_curve),
            token_amount,
            curve_token_balance,
            max_sol_cost,
            user_sol_balance,
        ) && !old(fee_account).solvent(fee_account_balance as int)),
        result is Err ==> {
            &&& *final(bonding_curve) == *old(bonding_curve)
            &&& *final(fee_account) == *old(fee_account)
            &&& *final(user_invite_account) == *old(user_invite_account)
            &&& *final(parent_invite_account) == *old(parent_invite_account)
            &&& *final(fee_recipient_invite_account) == *old(fee_recipient_invite_account)
            &&& *final(creator_fee_recipient_invite_account) == *old(
                creator_fee_recipient_invite_account,
            )
        },
        result is Ok <==> (buy_request_accepted(
            *old(bonding_curve),
            *old(user_invite_account),
            token_amount,
        ) && buy_guards_pass(
            *global,
            *old(bonding_curve),
            token_amount,
            curve_token_balance,
            max_sol_cost,
            user_sol_balance,
        ) && old(fee_account).solvent(fee_account_balance as int)),
        result is Ok ==> ({
            let settlement = result->Ok_0;
            let fill = buy_fill(token_amount, curve_token_balance);
            let cost = buy_cost(*old(bonding_curve), token_amount, curve_token_balance);
            let fee = buy_fee(*global, *old(bonding_curve), token_amount, curve_token_balance);
            let protocol_fee = fee_of(cost, global.fee_basis_points as int);
            let creator_fee = fee_of(cost, global.creator_fee_basis_points as int);
            let invite_fee = fee_of(cost, global.invite_fee_basis_points as int);
            &&& settlement.sol_amount == cost
            &&& settlement.token_amount == fill
            &&& settlement.fee == fee
            &&& 0 <= fee <= cost
            &&& *final(bonding_curve) == (BondingCurve {
                virtual_sol_reserves: (old(bonding_curve).virtual_sol_reserves + cost) as u64,
                virtual_token_reserves: (old(bonding_curve).virtual_token_reserves - fill) as u64,
                real_sol_reserves: (old(bonding_curve).real_sol_reserves + cost) as u64,
                real_token_reserves: (old(bonding_curve).real_token_reserves - fill) as u64,
                update_time: timestamp as u64,
                ..*old(bonding_curve)
            })
            &&& *final(fee_account) == (FeeAccount {
                received: (old(fee_account).received + fee) as u64,
                ..*old(fee_account)
            })
            &&& final(fee_account).solvent(fee_account_balance + fee)
            &&& *final(fee_recipient_invite_account) == (UserInviteStats {
                profit_claimable: (old(fee_recipient_invite_account).profit_claimable
                    + protocol_fee) as u64,
                ..*old(fee_recipient_invite_account)
            })
            &&& *final(creator_fee_recipient_invite_account) == (UserInviteStats {
                profit_claimable: (old(creator_fee_recipient_invite_account).profit_claimable
                    + creator_fee) as u64,
                ..*old(creator_fee_recipient_invite_account)
            })
            &&& *final(parent_invite_account) == (UserInviteStats {
                profit_claimable: (old(parent_invite_account).profit_claimable + invite_fee) as u64,
                profit_from_child: (old(parent_invite_account).profit_from_child
                    + invite_fee) as u64,
                ..*old(parent_invite_account)
            })
            &&& *final(user_invite_account) == (UserInviteStats {
                profit_to_parent: (old(user_invite_account).profit_to_parent + invite_fee) as u64,
                ..*old(user_invite_account)
            })
            &&& settlement.trade_event == (TradeEvent {
                mint: old(bonding_curve).mint,
                sol_amount: cost as u64,
                token_amount: fill as u64,
                is_buy: true,
                user,
                timestamp,
                virtual_sol_reserves: (old(bonding_curve).virtual_sol_reserves + cost) as u64,
                virtual_token_reserves: (old(bonding_curve).virtual_token_reserves - fill) as u64,
                real_sol_reserves: (old(bonding_curve).real_sol_reserves + cost) as u64,
                real_token_reserves: (old(bonding_curve).real_token_reserves - fill) as u64,
                hash,
            })
            &&& (settlement.complete_event is Some <==> old(bonding_curve).real_token_reserves
                - fill == 0)
            &&& settlement.complete_event is Some ==> settlement.complete_event->Some_0 == (
            CompleteEvent { user, mint: old(bonding_curve).mint, bonding_curve: bonding_curve_key, timestamp })
        }),
{
    if bonding_curve.complete {
        return Err(CurveLaunchpadError::BondingCurveComplete);
    }
    if !user_invite_account.is_init {
        return Err(CurveLaunchpadError::InviteAccountError);
    }
    if bonding_curve.real_token_reserves < token_amount {
        return Err(CurveLaunchpadError::InsufficientTokens);
    }
    if token_amount == 0 {
        return Err(CurveLaunchpadError::MinBuy);
    }
    let target_token_amount = if curve_token_balance < token_amount {
        curve_token_balance
    } else {
        token_amount
    };
    let mut amm_state = AMM::new(
        bonding_curve.virtual_sol_reserves as u128,
        bonding_curve.virtual_token_reserves as u128,
        bonding_curve.real_sol_reserves as u128,
        bonding_curve.real_token_reserves as u128,
        global.initial_virtual_token_reserves as u128,
    );
    let priced = amm_state.apply_buy(target_token_amount as u128);
    let buy_result = match priced {
        Some(r) => r,
        None => {
            proof {
                assert(false);
            }
            return Err(CurveLaunchpadError::MinBuy);
        },
    };
    proof {
        lemma_fee_le_amount(buy_result.sol_amount as int, global.total_fee_basis_points());
        lemma_fee_le_amount(buy_result.sol_amount as int, global.fee_basis_points as int);
        lemma_fee_le_amount(buy_result.sol_amount as int, global.creator_fee_basis_points as int);
        lemma_fee_le_amount(buy_result.sol_amount as int, global.invite_fee_basis_points as int);
    }
    let fee = calculate_fee(
        buy_result.sol_amount,
        global.fee_basis_points + global.creator_fee_basis_points + global.invite_fee_basis_points,
    );
    let total_cost: u128 = buy_result.sol_amount as u128 + fee as u128;
    if total_cost > max_sol_cost as u128 {
        return Err(CurveLaunchpadError::MaxSOLCostExceeded);
    }
    if (user_sol_balance as u128) < total_cost {
        return Err(CurveLaunchpadError::InsufficientSOL);
    }
    let updated_fee_account = FeeAccount {
        received: fee_account.received + fee,
        sent: fee_account.sent,
    };
    let is_ok = updated_fee_account.check(fee_account_balance + fee);
    if !is_ok {
        return Err(CurveLaunchpadError::FeeAccountStatusAbnormal);
    }
    let protocol_fee = calculate_fee(buy_result.sol_amount, global.fee_basis_points);
    let creator_fee = calculate_fee(buy_result.sol_amount, global.creator_fee_basis_points);
    let invite_fee = calculate_fee(buy_result.sol_amount, global.invite_fee_basis_points);
    *fee_account = updated_fee_account;
    fee_recipient_invite_account.profit_claimable = fee_recipient_invite_account.profit_claimable
        + protocol_fee;
    creator_fee_recipient_invite_account.profit_claimable =
        creator_fee_recipient_invite_account.profit_claimable + creator_fee;
    parent_invite_account.profit_claimable = parent_invite_account.profit_claimable + invite_fee;
    user_invite_account.profit_to_parent = user_invite_account.profit_to_parent + invite_fee;
    parent_invite_account.profit_from_child = parent_invite_account.profit_from_child + invite_fee;
    bonding_curve.real_token_reserves = amm_state.real_token_reserves as u64;
    bonding_curve.real_sol_reserves = amm_state.real_sol_reserves as u64;
    bonding_curve.virtual_token_reserves = amm_state.virtual_token_reserves as u64;
    bonding_curve.virtual_sol_reserves = amm_state.virtual_sol_reserves as u64;
    bonding_curve.update_time = timestamp as u64;
    let trade_event = TradeEvent {
        mint: bonding_curve.mint,
        sol_amount: buy_result.sol_amount,
        token_amount: buy_result.token_amount,
        is_buy: true,
        user,
        timestamp,
        virtual_sol_reserves: bonding_curve.virtual_sol_reserves,
        virtual_token_reserves: bonding_curve.virtual_token_reserves,
        real_sol_reserves: bonding_curve.real_sol_reserves,
        real_token_reserves: bonding_curve.real_token_reserves,
        hash,
    };
    let complete_event = if bonding_curve.real_token_reserves == 0 {
        Some(
            CompleteEvent {
                user,
                mint: bonding_curve.mint,
                bonding_curve: bonding_curve_key,
                timestamp,
            },
        )
    } else {
        None
    };
    Ok(
        BuySettlement {
            sol_amount: buy_result.sol_amount,
            token_amount: buy_result.token_amount,
            fee,
            trade_event,
            complete_event,
        },
    )
}

} // verus!
