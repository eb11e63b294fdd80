//! Referral-ledger nodes.
//!
//! One node per participant who has opted into the referral program. Each
//! node names exactly one parent, so the nodes form a forest; a node counts
//! its children and tracks the referral profit it has routed to its parent,
//! collected from its children, and can still claim.

use vstd::prelude::*;
use crate::keys::Pubkey;

verus! {

/// One participant's record in the referral ledger.
#[derive(Clone, Copy, Debug, PartialEq, Eq, Structural)]
pub struct UserInviteStats {
    /// The participant this node belongs to.
    pub key: Pubkey,
    /// The participant who invited this one.
    pub parent: Pubkey,
    /// How many nodes name this one as their parent.
    pub child_count: u64,
    /// Referral profit collected from this node's children.
    pub profit_from_child: u64,
    /// Referral profit this node's trades routed to its parent.
    pub profit_to_parent: u64,
    /// Profit credited to this node and not yet claimed.
    pub profit_claimable: u64,
    /// Profit this node has claimed over its lifetime.
    pub profit_claim_accumulated: u64,
    /// Whether the node has been initialized.
    pub is_init: bool,
}

} // verus!
