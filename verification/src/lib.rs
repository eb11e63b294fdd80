//! A token-launch exchange core built on a constant-product automated market
//! maker: it prices buy/sell trades against a per-token bonding curve, splits
//! trade fees between a protocol treasury, a token creator and a referral
//! tree, and tracks claimable referral balances against an escrow whose
//! solvency is checked after every mutation.
//!
//! The hosting platform (account storage, signing, transfers) sits outside
//! this crate; every function here works on plain values and states its full
//! effect in its contract.

pub mod amm;
pub mod bonding_curve;
pub mod buy;
pub mod create;
pub mod errors;
pub mod events;
pub mod fee_account;
pub mod fees;
pub mod global;
pub mod initialize;
pub mod keys;
pub mod sell;
pub mod set_params;
pub mod user_invite;
pub mod user_invite_stats;

pub use amm::{BuyResult, SellResult, AMM};
pub use bonding_curve::BondingCurve;
pub use buy::{buy, BuySettlement};
pub use create::create;
pub use errors::CurveLaunchpadError;
pub use events::{ClaimInviteProfitEvent, CompleteEvent, CreateEvent, SetParamsEvent, TradeEvent};
pub use fee_account::FeeAccount;
pub use fees::calculate_fee;
pub use global::{Global, DEFAULT_DECIMALS, DEFAULT_TOKEN_SUPPLY};
pub use initialize::initialize;
pub use keys::Pubkey;
pub use sell::{sell, SellSettlement};
pub use set_params::{set_amm_params, set_fee_params, set_protocol_fee_address};
pub use user_invite::{claim_inivte_profit, init_invite};
pub use user_invite_stats::UserInviteStats;
