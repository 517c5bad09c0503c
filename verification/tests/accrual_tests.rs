use oxi_vault::account::{AccountRecord, build_report};
use oxi_vault::accrual::{pending_accrual, sat_add, vault_usage_percent};

fn record(balance: u64) -> AccountRecord {
    AccountRecord {
        id: 77,
        username: None,
        first_name: None,
        last_name: None,
        registered_at: 0,
        miner_tier: 1,
        vault_tier: 1,
        language: "en".to_string(),
        balance,
        rate_per_hour: 1000,
        last_accrual: 0,
        referral_code: b"abcdef".to_vec(),
        referred: vec![1, 2, 3],
    }
}

#[test]
fn pending_accrual_follows_the_formula() {
    // floor(elapsed * rate / 3600), then capped
    assert_eq!(pending_accrual(0, 7200, 1000, 5000), 2000);
    assert_eq!(pending_accrual(0, 36000, 1000, 5000), 5000);
    assert_eq!(pending_accrual(0, 3599, 1000, u32::MAX), 999);
    assert_eq!(pending_accrual(100, 100, 1000, 5000), 0);
    assert_eq!(pending_accrual(0, 3600, 0, 5000), 0);
}

#[test]
fn pending_accrual_is_exact_on_extreme_inputs() {
    // the product elapsed * rate exceeds 64 bits without overflowing the math
    assert_eq!(pending_accrual(0, u64::MAX, u64::MAX, u32::MAX), u32::MAX as u64);
}

#[test]
fn usage_percent_follows_the_formula() {
    assert_eq!(vault_usage_percent(0, 5000), 0);
    assert_eq!(vault_usage_percent(2000, 5000), 40);
    assert_eq!(vault_usage_percent(2500, 5000), 50);
    assert_eq!(vault_usage_percent(4999, 5000), 99);
    // a balance above capacity reads above one hundred
    assert_eq!(vault_usage_percent(7500, 5000), 150);
    assert_eq!(vault_usage_percent(99, 100), 99);
}

#[test]
fn balance_addition_saturates() {
    assert_eq!(sat_add(10, 5), 15);
    assert_eq!(sat_add(u64::MAX - 5, 10), u64::MAX);
    assert_eq!(sat_add(u64::MAX, 0), u64::MAX);
}

#[test]
fn report_renders_the_record() {
    let rep = build_report(&record(2000), 5000, 123);
    assert_eq!(rep.id, 77);
    assert_eq!(rep.balance, 2000);
    assert_eq!(rep.pending_accrual, 123);
    assert_eq!(rep.vault_capacity, 5000);
    assert_eq!(rep.vault_usage_percent, 40);
    assert_eq!(rep.referral_count, 3);
    assert_eq!(rep.referred, vec![1, 2, 3]);
    assert_eq!(rep.referral_code, b"abcdef".to_vec());
}
