//! # campaign-escrow
//!
//! Holds business-funded campaign budgets in escrow and releases them to
//! approved creators: campaign creation, funding, creator applications,
//! selection, proof submission and review, payout release (with platform fee),
//! cancellation, expiry and surplus reclaim.
//!
//! A call works on an [`env::Env`]: the time, the contract's own address and
//! its entries. It answers with a value or an [`Error`], writes the entries,
//! and lists what the ledger around the contract has to do: which
//! authorization to demand, which tokens to move, which events to publish.
pub mod access;
pub mod action;
pub mod books;
pub mod calls;
pub mod changes;
pub mod contract;
pub mod env;
pub mod error;
pub mod laws;
pub mod payments;
pub mod rules;
pub mod shared;
pub mod solvency;
pub mod storage;
pub mod sums;
pub mod types;

pub use contract::CampaignEscrowContract;
pub use error::Error;
pub use types::{Application, Campaign, ProtocolConfig};
