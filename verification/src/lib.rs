//! A verified escrow and workflow engine for security bug-bounty programs.
//!
//! A funding pool (a vault) pays researchers according to a severity-based
//! reward schedule, gated by a governance approval step, with an optional
//! reputation credential issued after payment. This crate holds the vault
//! ledger and the per-report lifecycle state machine: how funds are
//! committed, how a submitted report moves through approval, rejection and
//! payout, who is authorized to trigger each transition, and how custody of
//! funds is released exactly once per approved report.
//!
//! The durable account store, the signature layer that authenticates
//! callers, and the token-custody primitive that moves value are external
//! collaborators: the functions here take the authenticated caller identity
//! and the current time as plain values, decide each transition, and hand
//! back the new state together with any transfer that the caller's runtime
//! must perform atomically with it.

pub mod error;
pub mod ids;
pub mod laws;
pub mod payout;
pub mod report;
pub mod reputation;
pub mod vault;
