//! Verified core of an idle-accrual game economy.
//!
//! Accounts accumulate a virtual currency over time at a per-account hourly
//! rate, capped by the capacity of their vault tier, and can recruit other
//! accounts through referral codes for a one-time bonus.  This crate holds the
//! accrual, claim, registration and referral rules together with their proofs;
//! transport and persistence stay with the caller.

use vstd::prelude::*;

pub mod account;
pub mod accrual;
pub mod codes;
pub mod config;
pub mod engine;
pub mod laws;
pub mod store;

verus! {

/// Tokens accrued per hour by a freshly registered account.
pub const DEFAULT_RATE_PER_HOUR: u64 = 1000;

/// One-time bonus credited to both parties of a referral.
pub const DEFAULT_REFERRAL_BONUS: u64 = 25000;

/// How an engine operation fails.  Malformed transport input and storage
/// failures are the caller's concern and never reach the engine.
#[derive(Clone, Copy, Debug, PartialEq, Eq, Structural)]
pub enum EngineError {
    /// A registration quoted the wrong shared secret.
    Auth,
    /// The account id is already registered.
    Conflict,
    /// No record carries the requested account id.
    NotFound,
    /// A stored vault tier has no entry in the capacity table.  Surfaced,
    /// never silently treated as zero capacity.
    Inconsistent,
}

} // verus!
