//! The per-account record and the status report built from it.

use vstd::prelude::*;
use crate::accrual::{spec_usage_percent, vault_usage_percent};

verus! {

/// One stored record per player.
///
/// Of the account's upgrade slots the engine reads exactly two, the miner and
/// the vault, so they are carried as two tier fields; the vault tier indexes
/// the capacity table.  `balance` is not forced below the current capacity:
/// capping applies only to newly accrued amounts, so a balance may exceed a
/// capacity that was later reconfigured downwards.
#[derive(Debug)]
pub struct AccountRecord {
    /// Unique, immutable account identifier.
    pub id: u64,
    /// Optional display name, stored as given at registration.
    pub username: Option<String>,
    /// Optional first name, stored as given at registration.
    pub first_name: Option<String>,
    /// Optional last name, stored as given at registration.
    pub last_name: Option<String>,
    /// Unix time (seconds) of registration, set once.
    pub registered_at: u64,
    /// Tier of the miner upgrade slot.
    pub miner_tier: u8,
    /// Tier of the vault upgrade slot; must resolve in the capacity table.
    pub vault_tier: u8,
    /// Language chosen at registration.
    pub language: String,
    /// Accrued currency.
    pub balance: u64,
    /// Currency accrued per hour.
    pub rate_per_hour: u64,
    /// Unix time (seconds) of the last settlement of accrual into `balance`.
    pub last_accrual: u64,
    /// This account's six-character referral code, derived from `id`.
    pub referral_code: Vec<u8>,
    /// Ids of the accounts that registered with this account's code;
    /// append-only.
    pub referred: Vec<u64>,
}

/// What a peek or claim hands back: the record's fields together with the
/// computed pending accrual, the vault capacity and its usage.
#[derive(Debug)]
pub struct StatusReport {
    pub id: u64,
    pub username: Option<String>,
    pub miner_tier: u8,
    pub vault_tier: u8,
    pub balance: u64,
    pub last_accrual: u64,
    pub rate_per_hour: u64,
    pub referral_code: Vec<u8>,
    pub referred: Vec<u64>,
    /// `referred.len()`, the number of accounts this account recruited.
    pub referral_count: u64,
    /// Currency accrued since `last_accrual`, capped at `vault_capacity`.
    pub pending_accrual: u64,
    pub vault_capacity: u32,
    /// `balance` as a whole percentage of `vault_capacity`.
    pub vault_usage_percent: u64,
}

/// The report `rep` renders record `a` with capacity `cap` and pending
/// accrual `pending`.
pub open spec fn report_for(rep: StatusReport, a: AccountRecord, cap: u32, pending: u64) -> bool {
    &&& rep.id == a.id
    &&& rep.username == a.username
    &&& rep.miner_tier == a.miner_tier
    &&& rep.vault_tier == a.vault_tier
    &&& rep.balance == a.balance
    &&& rep.last_accrual == a.last_accrual
    &&& rep.rate_per_hour == a.rate_per_hour
    &&& rep.referral_code@ == a.referral_code@
    &&& rep.referred@ == a.referred@
    &&& rep.referral_count == a.referred@.len()
    &&& rep.pending_accrual == pending
    &&& rep.vault_capacity == cap
    &&& rep.vault_usage_percent == spec_usage_percent(a.balance, cap)
}

/// Copy of an optional string.
fn clone_opt_string(s: &Option<String>) -> (r: Option<String>)
    ensures
        r == *s,
{
    match s {
        Some(v) => Some(v.clone()),
        None => None,
    }
}

/// Copy of a vector of plain values.
fn clone_plain_vec<T: Copy>(v: &Vec<T>) -> (r: Vec<T>)
    ensures
        r@ == v@,
{
    let mut r: Vec<T> = Vec::new();
    let n = v.len();
    let mut i: usize = 0;
    while i < n
        invariant
            0 <= i <= n,
            n == v@.len(),
            r@ =~= v@.subrange(0, i as int),
        decreases n - i,
    {
        r.push(v[i]);
        i = i + 1;
    }
    proof {
        assert(r@ =~= v@);
    }
    r
}

/// Builds the status report for record `a` at capacity `cap`, reporting
/// `pending` as the pending accrual.
pub fn build_report(a: &AccountRecord, cap: u32, pending: u64) -> (rep: StatusReport)
    requires
        cap >= 1,
    ensures
        report_for(rep, *a, cap, pending),
{
    StatusReport {
        id: a.id,
        username: clone_opt_string(&a.username),
        miner_tier: a.miner_tier,
        vault_tier: a.vault_tier,
        balance: a.balance,
        last_accrual: a.last_accrual,
        rate_per_hour: a.rate_per_hour,
        referral_code: clone_plain_vec(&a.referral_code),
        referred: clone_plain_vec(&a.referred),
        referral_count: a.referred.len() as u64,
        pending_accrual: pending,
        vault_capacity: cap,
        vault_usage_percent: vault_usage_percent(a.balance, cap),
    }
}

} // verus!
