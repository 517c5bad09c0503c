use oxi_vault::EngineError;
use oxi_vault::config::{CapacityTable, EngineConfig, standard_capacities};
use oxi_vault::engine::{RegisterRequest, claim, peek, register};
use oxi_vault::codes::referral_code_for;
use oxi_vault::store::AccountStore;

fn test_config() -> EngineConfig {
    EngineConfig {
        capacities: standard_capacities(),
        default_rate_per_hour: 1000,
        referral_bonus: 25000,
        shared_secret: b"123".to_vec(),
    }
}

fn request(id: u64, referral_code: Option<Vec<u8>>) -> RegisterRequest {
    RegisterRequest {
        id,
        username: Some(format!("player{}", id)),
        first_name: None,
        last_name: None,
        language: "en".to_string(),
        referral_code,
    }
}

#[test]
fn register_then_peek_after_two_hours() {
    let mut store = AccountStore::new();
    let cfg = test_config();
    let t0: u64 = 1_000_000;
    assert_eq!(register(&mut store, &cfg, b"123", request(7, None), t0), Ok(()));

    // two hours at 1000/hour against a 5000 vault: 2000 pending, nothing capped
    let rep = peek(&store, &cfg, 7, t0 + 7200).unwrap();
    assert_eq!(rep.pending_accrual, 2000);
    assert_eq!(rep.vault_capacity, 5000);
    assert_eq!(rep.balance, 0);
    assert_eq!(rep.vault_usage_percent, 0);
    assert_eq!(rep.last_accrual, t0);
    assert_eq!(rep.rate_per_hour, 1000);
    assert_eq!(rep.referral_count, 0);
    assert_eq!(rep.username, Some("player7".to_string()));
}

#[test]
fn peek_is_idempotent_at_one_instant() {
    let mut store = AccountStore::new();
    let cfg = test_config();
    let t0: u64 = 500;
    register(&mut store, &cfg, b"123", request(9, None), t0).unwrap();
    let first = peek(&store, &cfg, 9, t0 + 5400).unwrap();
    let second = peek(&store, &cfg, 9, t0 + 5400).unwrap();
    assert_eq!(first.pending_accrual, second.pending_accrual);
    assert_eq!(first.balance, second.balance);
}

#[test]
fn accrual_is_capped_at_vault_capacity() {
    let mut store = AccountStore::new();
    let cfg = test_config();
    let t0: u64 = 1_000_000;
    register(&mut store, &cfg, b"123", request(7, None), t0).unwrap();

    // ten hours would be 10000 raw, the tier-1 vault caps it at 5000
    let rep = peek(&store, &cfg, 7, t0 + 36000).unwrap();
    assert_eq!(rep.pending_accrual, 5000);
    assert!(rep.pending_accrual <= rep.vault_capacity as u64);
}

#[test]
fn claim_settles_and_claiming_again_adds_nothing() {
    let mut store = AccountStore::new();
    let cfg = test_config();
    let t0: u64 = 1_000_000;
    register(&mut store, &cfg, b"123", request(7, None), t0).unwrap();

    let rep = claim(&mut store, &cfg, 7, t0 + 7200).unwrap();
    assert_eq!(rep.pending_accrual, 2000);
    assert_eq!(rep.balance, 2000);
    assert_eq!(rep.last_accrual, t0 + 7200);
    assert_eq!(rep.vault_usage_percent, 40);

    // same instant: zero elapsed time, the balance does not move
    let again = claim(&mut store, &cfg, 7, t0 + 7200).unwrap();
    assert_eq!(again.pending_accrual, 0);
    assert_eq!(again.balance, 2000);
}

#[test]
fn accrual_truncates_fractional_units() {
    let mut store = AccountStore::new();
    let cfg = test_config();
    let t0: u64 = 0;
    register(&mut store, &cfg, b"123", request(3, None), t0).unwrap();

    // 3599 s at 1000/hour is 999.72...: fractional units are dropped
    let rep = peek(&store, &cfg, 3, 3599).unwrap();
    assert_eq!(rep.pending_accrual, 999);
}

#[test]
fn referral_credits_both_parties_exactly_once() {
    let mut store = AccountStore::new();
    let cfg = test_config();
    let t0: u64 = 42;
    register(&mut store, &cfg, b"123", request(1, None), t0).unwrap();

    let code = referral_code_for(1);
    register(&mut store, &cfg, b"123", request(2, Some(code)), t0).unwrap();

    assert_eq!(store.accounts.len(), 2);
    let referrer = &store.accounts[0];
    assert_eq!(referrer.id, 1);
    assert_eq!(referrer.balance, 25000);
    assert_eq!(referrer.referred, vec![2]);
    let fresh = &store.accounts[1];
    assert_eq!(fresh.id, 2);
    assert_eq!(fresh.balance, 25000);
    assert_eq!(fresh.referred, Vec::<u64>::new());
}

#[test]
fn unknown_referral_code_grants_nothing_and_is_no_error() {
    let mut store = AccountStore::new();
    let cfg = test_config();
    register(&mut store, &cfg, b"123", request(1, None), 0).unwrap();

    let r = register(&mut store, &cfg, b"123", request(2, Some(b"zzzzzz".to_vec())), 0);
    assert_eq!(r, Ok(()));
    assert_eq!(store.accounts.len(), 2);
    assert_eq!(store.accounts[0].balance, 0);
    assert_eq!(store.accounts[0].referred, Vec::<u64>::new());
    assert_eq!(store.accounts[1].balance, 0);
}

#[test]
fn duplicate_registration_conflicts_and_changes_nothing() {
    let mut store = AccountStore::new();
    let cfg = test_config();
    register(&mut store, &cfg, b"123", request(5, None), 100).unwrap();

    let r = register(&mut store, &cfg, b"123", request(5, None), 200);
    assert_eq!(r, Err(EngineError::Conflict));
    assert_eq!(store.accounts.len(), 1);
    assert_eq!(store.accounts[0].registered_at, 100);
    assert_eq!(store.accounts[0].balance, 0);
}

#[test]
fn wrong_secret_is_an_auth_error() {
    let mut store = AccountStore::new();
    let cfg = test_config();
    let r = register(&mut store, &cfg, b"124", request(5, None), 100);
    assert_eq!(r, Err(EngineError::Auth));
    assert_eq!(store.accounts.len(), 0);
}

#[test]
fn unknown_account_is_not_found() {
    let mut store = AccountStore::new();
    let cfg = test_config();
    register(&mut store, &cfg, b"123", request(5, None), 100).unwrap();
    assert_eq!(peek(&store, &cfg, 6, 100).unwrap_err(), EngineError::NotFound);
    assert_eq!(claim(&mut store, &cfg, 6, 100).unwrap_err(), EngineError::NotFound);
}

#[test]
fn missing_capacity_tier_is_surfaced_not_defaulted() {
    let mut store = AccountStore::new();
    let cfg = test_config();
    register(&mut store, &cfg, b"123", request(5, None), 100).unwrap();

    let bare = EngineConfig {
        capacities: CapacityTable::new(),
        default_rate_per_hour: 1000,
        referral_bonus: 25000,
        shared_secret: b"123".to_vec(),
    };
    assert_eq!(peek(&store, &bare, 5, 100).unwrap_err(), EngineError::Inconsistent);
    assert_eq!(claim(&mut store, &bare, 5, 100).unwrap_err(), EngineError::Inconsistent);
    // the failed claim changed nothing
    assert_eq!(store.accounts[0].balance, 0);
    assert_eq!(store.accounts[0].last_accrual, 100);
}

#[test]
fn capacity_table_holds_the_stock_tiers() {
    let t = standard_capacities();
    assert_eq!(t.capacity_of(1), Some(5000));
    assert_eq!(t.capacity_of(4), Some(120000));
    assert_eq!(t.capacity_of(10), Some(10000000));
    assert_eq!(t.capacity_of(11), None);
    assert_eq!(t.capacity_of(0), None);
}
