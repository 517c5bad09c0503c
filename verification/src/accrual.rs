//! Accrual arithmetic.
//!
//! Pending accrual is the currency earned since the last settlement: elapsed
//! seconds times the hourly rate, divided by 3600 with the remainder dropped
//! (fractional units are lost, never carried over), then clamped to the vault
//! capacity.  Vault usage is the stored balance as a percentage of capacity.

use vstd::prelude::*;

verus! {

/// Accrual before capping: `floor(elapsed_seconds * rate_per_hour / 3600)`.
pub open spec fn spec_raw_accrual(elapsed: nat, rate: nat) -> nat {
    (elapsed * rate) / 3600
}

/// Accrual after capping at the vault capacity.
pub open spec fn spec_pending(elapsed: nat, rate: nat, capacity: nat) -> nat {
    if spec_raw_accrual(elapsed, rate) > capacity {
        capacity
    } else {
        spec_raw_accrual(elapsed, rate)
    }
}

/// Addition on balances: the mathematical sum, saturating at the largest
/// representable balance.
pub open spec fn spec_sat_add(a: u64, b: u64) -> u64 {
    if a + b > u64::MAX {
        u64::MAX
    } else {
        (a + b) as u64
    }
}

/// Stored balance as a whole percentage of capacity, `floor(balance * 100 /
/// capacity)`, saturating at the largest representable value.  A balance may
/// exceed the capacity (capping applies only to newly accrued amounts), so
/// the result may exceed one hundred.
pub open spec fn spec_usage_percent(balance: u64, capacity: u32) -> u64
    recommends
        capacity >= 1,
{
    if (balance * 100) / (capacity as int) > u64::MAX {
        u64::MAX
    } else {
        ((balance * 100) / (capacity as int)) as u64
    }
}

/// Currency accrued between `last` and `now` at `rate` per hour, capped at
/// `capacity`.
pub fn pending_accrual(last: u64, now: u64, rate: u64, capacity: u32) -> (p: u64)
    requires
        last <= now,
    ensures
        p == spec_pending((now - last) as nat, rate as nat, capacity as nat),
        p <= capacity,
{
    let elapsed: u128 = (now - last) as u128;
    proof {
        assert(elapsed * (rate as u128) <= u128::MAX) by (nonlinear_arith)
            requires
                elapsed <= u64::MAX,
                rate <= u64::MAX,
        ;
    }
    let raw: u128 = (elapsed * (rate as u128)) / 3600;
    if raw > capacity as u128 {
        capacity as u64
    } else {
        raw as u64
    }
}

/// Whole-percent vault usage of `balance` against `capacity`.
pub fn vault_usage_percent(balance: u64, capacity: u32) -> (p: u64)
    requires
        capacity >= 1,
    ensures
        p == spec_usage_percent(balance, capacity),
{
    proof {
        assert((balance as u128) * 100 <= u128::MAX) by (nonlinear_arith)
            requires
                balance <= u64::MAX,
        ;
    }
    let scaled: u128 = ((balance as u128) * 100) / (capacity as u128);
    if scaled > u64::MAX as u128 {
        u64::MAX
    } else {
        scaled as u64
    }
}

/// Adds `b` to balance `a`, saturating at the largest representable balance.
pub fn sat_add(a: u64, b: u64) -> (r: u64)
    ensures
        r == spec_sat_add(a, b),
{
    if a > u64::MAX - b {
        u64::MAX
    } else {
        a + b
    }
}

} // verus!
