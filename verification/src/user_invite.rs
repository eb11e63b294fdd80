//! Referral-ledger use cases: opting in and claiming profit.
//!
//! `init_invite` links a participant to a parent node, idempotently; the
//! claim use case pays a node's whole claimable balance out of the escrow,
//! records the outflow, and re-checks escrow solvency before anything is
//! committed. Every rejected request leaves both records exactly as they
//! were.

use vstd::prelude::*;
use crate::errors::CurveLaunchpadError;
use crate::events::ClaimInviteProfitEvent;
use crate::fee_account::FeeAccount;
use crate::keys::Pubkey;
use crate::user_invite_stats::UserInviteStats;

verus! {

/// Links `user`'s referral node to `parent`'s.
///
/// A node that is already initialized is left untouched and the call
/// succeeds, whatever the named parent (the operation is idempotent). An
/// uninitialized node naming itself as its own parent is rejected.
/// Otherwise the user's node is initialized and linked, the parent's node
/// is initialized if it was not yet, and the parent's child count grows by
/// one.
pub fn init_invite(
    user_invite_account: &mut UserInviteStats,
    parent_invite_account: &mut UserInviteStats,
    user: Pubkey,
    parent: Pubkey,
) -> (result: Result<(), CurveLaunchpadError>)
    requires
        (user != parent && !old(user_invite_account).is_init)
            ==> old(parent_invite_account).child_count < u64::MAX,
    ensures
        result is Ok <==> (old(user_invite_account).is_init || user != parent),
        result == Err::<(), CurveLaunchpadError>(CurveLaunchpadError::InviteAccountError)
            <==> (!old(user_invite_account).is_init && user == parent),
        result is Err ==> {
            &&& *final(user_invite_account) == *old(user_invite_account)
            &&& *final(parent_invite_account) == *old(parent_invite_account)
        },
        old(user_invite_account).is_init ==> {
            &&& result is Ok
            &&& *final(user_invite_account) == *old(user_invite_account)
            &&& *final(parent_invite_account) == *old(parent_invite_account)
        },
        (user != parent && !old(user_invite_account).is_init) ==> {
            &&& result is Ok
            &&& *final(user_invite_account) == (UserInviteStats {
                is_init: true,
                key: user,
                parent: parent,
                ..*old(user_invite_account)
            })
            &&& *final(parent_invite_account) == (UserInviteStats {
                is_init: true,
                child_count: (old(parent_invite_account).child_count + 1) as u64,
                ..*old(parent_invite_account)
            })
        },
{
    if user_invite_account.is_init {
        return Ok(());
    }
    if user == parent {
        return Err(CurveLaunchpadError::InviteAccountError);
    }
    user_invite_account.is_init = true;
    if !parent_invite_account.is_init {
        parent_invite_account.is_init = true;
    }
    user_invite_account.key = user;
    user_invite_account.parent = parent;
    parent_invite_account.child_count = parent_invite_account.child_count + 1;
    Ok(())
}

/// Pays out the whole claimable balance of `user_invite_account`.
///
/// Fails when nothing is claimable. The escrow must be able to pay the
/// amount and must stay solvent once the outflow is recorded, or the claim
/// is rejected in full; `fee_account_balance` is the escrow's actual balance
/// before the payout. On success the node's claimable balance is zeroed and
/// added to its accumulated total, the escrow records the outflow, and the
/// returned record names the paid amount.
pub fn claim_inivte_profit(
    user_invite_account: &mut UserInviteStats,
    fee_account: &mut FeeAccount,
    fee_account_balance: u64,
    user: Pubkey,
    timestamp: i64,
) -> (result: Result<ClaimInviteProfitEvent, CurveLaunchpadError>)
    requires
        (old(user_invite_account).profit_claimable > 0 && fee_account_balance >= old(
            user_invite_account,
        ).profit_claimable) ==> {
            &&& old(fee_account).sent + old(user_invite_account).profit_claimable <= old(
                fee_account,
            ).received
            &&& old(user_invite_account).profit_claim_accumulated + old(
                user_invite_account,
            ).profit_claimable <= u64::MAX
        },
    ensures
        result is Ok <==> (old(user_invite_account).profit_claimable > 0 && fee_account_balance
            >= old(user_invite_account).profit_claimable && old(fee_account).solvent(
            fee_account_balance as int,
        )),
        result == Err::<ClaimInviteProfitEvent, CurveLaunchpadError>(
            CurveLaunchpadError::NotClaimableFee,
        ) <==> old(user_invite_account).profit_claimable == 0,
        result == Err::<ClaimInviteProfitEvent, CurveLaunchpadError>(
            CurveLaunchpadError::FeeAccountStatusAbnormal,
        ) <==> (old(user_invite_account).profit_claimable > 0 && (fee_account_balance < old(
            user_invite_account,
        ).profit_claimable || !old(fee_account).solvent(fee_account_balance as int))),
        result is Err ==> {
            &&& *final(user_invite_account) == *old(user_invite_account)
            &&& *final(fee_account) == *old(fee_account)
        },
        result is Ok ==> ({
            let amount = old(user_invite_account).profit_claimable;
            &&& amount > 0
            &&& fee_account_balance >= amount
            &&& old(fee_account).solvent(fee_account_balance as int)
            &&& *final(user_invite_account) == (UserInviteStats {
                profit_claimable: 0,
                profit_claim_accumulated: (old(user_invite_account).profit_claim_accumulated
                    + amount) as u64,
                ..*old(user_invite_account)
            })
            &&& *final(fee_account) == (FeeAccount {
                sent: (old(fee_account).sent + amount) as u64,
                ..*old(fee_account)
            })
            &&& final(fee_account).solvent(fee_account_balance - amount)
            &&& result->Ok_0 == (ClaimInviteProfitEvent { user, amount, timestamp })
        }),
{
    let claim_amount = user_invite_account.profit_claimable;
    if claim_amount == 0 {
        return Err(CurveLaunchpadError::NotClaimableFee);
    }
    if fee_account_balance < claim_amount {
        return Err(CurveLaunchpadError::FeeAccountStatusAbnormal);
    }
    let updated_fee_account = FeeAccount {
        received: fee_account.received,
        sent: fee_account.sent + claim_amount,
    };
    let is_ok = updated_fee_account.check(fee_account_balance - claim_amount);
    if !is_ok {
        return Err(CurveLaunchpadError::FeeAccountStatusAbnormal);
    }
    user_invite_account.profit_claimable = 0;
    user_invite_account.profit_claim_accumulated = user_invite_account.profit_claim_accumulated
        + claim_amount;
    *fee_account = updated_fee_account;
    Ok(ClaimInviteProfitEvent { user, amount: claim_amount, timestamp })
}

} // verus!
