//! Participant and token identities.
//!
//! The core only ever compares identities for equality: caller-derived
//! addresses against recorded owner, parent, creator and mint addresses.
//! An identity is therefore modeled as an opaque identifier; the hosting
//! layer maps each platform address to one such identifier and back.

use vstd::prelude::*;

verus! {

/// An opaque account identity: a participant, a token type or a ledger
/// record address, compared only for equality.
#[derive(Clone, Copy, Debug, PartialEq, Eq, Structural)]
pub struct Pubkey {
    /// The hosting layer's stand-in for the platform address.
    pub id: u64,
}

} // verus!
