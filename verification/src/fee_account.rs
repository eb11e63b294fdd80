//! The escrow ledger.
//!
//! Every trade deposits its withheld fee into one escrow account and records
//! the inflow in `received`; every referral-profit claim pays out of the same
//! account and records the outflow in `sent`. After each mutation the
//! escrow's actual balance is checked against the recorded net inflow, and a
//! shortfall aborts the whole triggering request.

use vstd::prelude::*;

verus! {

/// Cumulative inflow and outflow of fee proceeds, in native base units.
#[derive(Clone, Copy, Debug, PartialEq, Eq, Structural)]
pub struct FeeAccount {
    /// Total fees ever deposited into the escrow.
    pub received: u64,
    /// Total claims ever paid out of the escrow.
    pub sent: u64,
}

impl FeeAccount {
    /// The net inflow the escrow still owes coverage for.
    pub open spec fn net_owed(self) -> int {
        self.received - self.sent
    }

    /// The escrow's actual balance covers its recorded net inflow.
    pub open spec fn solvent(self, balance: int) -> bool {
        balance >= self.net_owed()
    }

    /// The ledger has never recorded more outflow than inflow.
    pub open spec fn wf(self) -> bool {
        self.sent <= self.received
    }

    /// Whether `balance` covers the recorded net inflow.
    pub fn check(&self, balance: u64) -> (ok: bool)
        requires
            self.wf(),
        ensures
            ok == self.solvent(balance as int),
    {
        let expected_balance = self.received - self.sent;
        balance >= expected_balance
    }

    /// Records a fee deposit into the escrow.
    pub fn credit_received(&mut self, amount: u64)
        requires
            old(self).received + amount <= u64::MAX,
        ensures
            final(self).received == old(self).received + amount,
            final(self).sent == old(self).sent,
    {
        self.received = self.received + amount;
    }

    /// Records a claim paid out of the escrow.
    pub fn credit_sent(&mut self, amount: u64)
        requires
            old(self).sent + amount <= u64::MAX,
        ensures
            final(self).sent == old(self).sent + amount,
            final(self).received == old(self).received,
    {
        self.sent = self.sent + amount;
    }
}

/// A trade that deposits its withheld fee keeps the escrow solvent: if the
/// balance covered the net inflow before, the balance grown by the fee covers
/// the net inflow grown by the same fee.
pub proof fn lemma_fee_inflow_preserves_solvency(
    pre: FeeAccount,
    post: FeeAccount,
    balance: int,
    fee: int,
)
    requires
        0 <= fee,
        pre.solvent(balance),
        post.received == pre.received + fee,
        post.sent == pre.sent,
    ensures
        post.solvent(balance + fee),
{
}

/// A claim paid in full keeps the escrow solvent: if the balance covered the
/// net inflow before, the balance less the claimed amount covers the net
/// inflow less the same amount.
pub proof fn lemma_claim_outflow_preserves_solvency(
    pre: FeeAccount,
    post: FeeAccount,
    balance: int,
    amount: int,
)
    requires
        0 <= amount,
        pre.solvent(balance),
        post.sent == pre.sent + amount,
        post.received == pre.received,
    ensures
        post.solvent(balance - amount),
{
}

} // verus!
