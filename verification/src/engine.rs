//! The accrual/claim engine and the registration path.
//!
//! `peek` reports an account's standing without touching it, `claim` settles
//! the pending accrual into the balance, and `register` creates an account,
//! crediting a one-time bonus to both parties when a known referral code is
//! quoted.  Each operation takes the store, the configuration and the current
//! clock reading; nothing here reads a clock or performs I/O of its own.

use vstd::prelude::*;
use crate::EngineError;
use crate::account::{AccountRecord, StatusReport, report_for, build_report};
use crate::accrual::{pending_accrual, sat_add, spec_pending, spec_sat_add};
use crate::codes::{referral_code_for, spec_referral_code};
use crate::config::EngineConfig;
use crate::store::{AccountStore, bytes_eq, spec_first_code_match, spec_has_code};

verus! {

/// What a registration request carries, after transport concerns (framing,
/// marshaling) have been stripped away by the caller.
pub struct RegisterRequest {
    /// The id the new account shall carry.
    pub id: u64,
    pub username: Option<String>,
    pub first_name: Option<String>,
    pub last_name: Option<String>,
    pub language: String,
    /// A referral code of an existing account, if the player quoted one.
    pub referral_code: Option<Vec<u8>>,
}

/// Record `a` is a freshly initialized account for request `req` at time
/// `now`, holding `bonus` as its starting balance.
pub open spec fn spec_fresh_record(
    a: AccountRecord,
    cfg: EngineConfig,
    req: RegisterRequest,
    now: u64,
    bonus: u64,
) -> bool {
    &&& a.id == req.id
    &&& a.username == req.username
    &&& a.first_name == req.first_name
    &&& a.last_name == req.last_name
    &&& a.registered_at == now
    &&& a.miner_tier == 1
    &&& a.vault_tier == 1
    &&& a.language == req.language
    &&& a.balance == bonus
    &&& a.rate_per_hour == cfg.default_rate_per_hour
    &&& a.last_accrual == now
    &&& a.referral_code@ == spec_referral_code(req.id)
    &&& a.referred@ == Seq::<u64>::empty()
}

/// Record `b` is record `a` after the one-time referral credit for the new
/// account `new_id`: the bonus is added to the balance, the new id is
/// appended to the referred list, and nothing else moves.
pub open spec fn spec_credited(b: AccountRecord, a: AccountRecord, new_id: u64, bonus: u64) -> bool {
    &&& b.id == a.id
    &&& b.username == a.username
    &&& b.first_name == a.first_name
    &&& b.last_name == a.last_name
    &&& b.registered_at == a.registered_at
    &&& b.miner_tier == a.miner_tier
    &&& b.vault_tier == a.vault_tier
    &&& b.language == a.language
    &&& b.balance == spec_sat_add(a.balance, bonus)
    &&& b.rate_per_hour == a.rate_per_hour
    &&& b.last_accrual == a.last_accrual
    &&& b.referral_code == a.referral_code
    &&& b.referred@ == a.referred@.push(new_id)
}

/// Record `b` is record `a` settled at `now` with pending amount `p`: the
/// amount is added to the balance, the settlement time moves to `now`, and
/// nothing else moves.
pub open spec fn spec_settled(b: AccountRecord, a: AccountRecord, p: u64, now: u64) -> bool {
    &&& b.id == a.id
    &&& b.username == a.username
    &&& b.first_name == a.first_name
    &&& b.last_name == a.last_name
    &&& b.registered_at == a.registered_at
    &&& b.miner_tier == a.miner_tier
    &&& b.vault_tier == a.vault_tier
    &&& b.language == a.language
    &&& b.balance == spec_sat_add(a.balance, p)
    &&& b.rate_per_hour == a.rate_per_hour
    &&& b.last_accrual == now
    &&& b.referral_code == a.referral_code
    &&& b.referred == a.referred
}

/// Registration without a referral grant: the stored records stay as they
/// were and a fresh record with starting balance zero is appended.
pub open spec fn spec_register_plain(
    pre: Seq<AccountRecord>,
    post: Seq<AccountRecord>,
    cfg: EngineConfig,
    req: RegisterRequest,
    now: u64,
) -> bool {
    &&& post.len() == pre.len() + 1
    &&& forall|k: int| 0 <= k < pre.len() ==> post[k] == pre[k]
    &&& spec_fresh_record(post[pre.len() as int], cfg, req, now, 0)
}

/// Registration with a referral grant to the record at index `j`: that
/// record is credited exactly once, every other record stays as it was, and
/// a fresh record starting with the bonus is appended.
pub open spec fn spec_register_referred(
    pre: Seq<AccountRecord>,
    post: Seq<AccountRecord>,
    cfg: EngineConfig,
    req: RegisterRequest,
    now: u64,
    j: int,
) -> bool {
    &&& post.len() == pre.len() + 1
    &&& spec_credited(post[j], pre[j], req.id, cfg.referral_bonus)
    &&& forall|k: int| 0 <= k < pre.len() && k != j ==> post[k] == pre[k]
    &&& spec_fresh_record(post[pre.len() as int], cfg, req, now, cfg.referral_bonus)
}

/// Registers a new account.
///
/// The quoted secret must match the configured one and the id must be fresh;
/// each violation is its own error and leaves the store untouched.  On
/// success a record initialized at `now` is appended, and if the request
/// quoted a referral code carried by some stored account, the first such
/// account is credited the bonus once, the new account starts with the bonus,
/// and the new id is appended to the referrer's list.  A code nobody carries
/// grants nothing and is no error.
///
/// The duplicate check runs before any write, and the referrer's credit and
/// the new record land in the same in-memory update, so a registration never
/// leaves a half-applied bonus behind.
pub fn register(
    store: &mut AccountStore,
    cfg: &EngineConfig,
    secret: &[u8],
    req: RegisterRequest,
    now: u64,
) -> (r: Result<(), EngineError>)
    requires
        old(store).wf(),
        cfg.wf(),
        old(store).spec_clock_ok(now),
    ensures
        final(store).wf(),
        final(store).spec_clock_ok(now),
        r is Ok <==> (secret@ == cfg.shared_secret@ && !old(store).spec_contains_id(req.id)),
        r == Err::<(), EngineError>(EngineError::Auth) <==> secret@ != cfg.shared_secret@,
        r == Err::<(), EngineError>(EngineError::Conflict) <==> (secret@ == cfg.shared_secret@
            && old(store).spec_contains_id(req.id)),
        r is Err ==> *final(store) == *old(store),
        r is Ok ==> final(store).spec_contains_id(req.id),
        r is Ok ==> match req.referral_code {
            None => spec_register_plain(
                old(store).accounts@,
                final(store).accounts@,
                *cfg,
                req,
                now,
            ),
            Some(code) => {
                if spec_has_code(old(store).accounts@, code@) {
                    forall|j: int|
                        spec_first_code_match(old(store).accounts@, code@, j)
                            ==> spec_register_referred(
                            old(store).accounts@,
                            final(store).accounts@,
                            *cfg,
                            req,
                            now,
                            j,
                        )
                } else {
                    spec_register_plain(old(store).accounts@, final(store).accounts@, *cfg, req, now)
                }
            },
        },
{
    if !bytes_eq(secret, cfg.shared_secret.as_slice()) {
        return Err(EngineError::Auth);
    }
    match store.find_index(req.id) {
        Some(_) => {
            return Err(EngineError::Conflict);
        },
        None => {},
    }
    let ghost pre = store.accounts@;
    let code_vec = referral_code_for(req.id);
    let mut bonus: u64 = 0;
    match &req.referral_code {
        Some(code) => {
            match store.find_by_code(code.as_slice()) {
                Some(j) => {
                    let mut referrer = store.accounts.remove(j);
                    referrer.balance = sat_add(referrer.balance, cfg.referral_bonus);
                    referrer.referred.push(req.id);
                    store.accounts.insert(j, referrer);
                    bonus = cfg.referral_bonus;
                    proof {
                        assert(store.accounts@ =~= pre.update(j as int, store.accounts@[j as int]));
                    }
                },
                None => {},
            }
        },
        None => {},
    }
    let record = AccountRecord {
        id: req.id,
        username: req.username,
        first_name: req.first_name,
        last_name: req.last_name,
        registered_at: now,
        miner_tier: 1,
        vault_tier: 1,
        language: req.language,
        balance: bonus,
        rate_per_hour: cfg.default_rate_per_hour,
        last_accrual: now,
        referral_code: code_vec,
        referred: Vec::new(),
    };
    store.accounts.push(record);
    proof {
        assert(store.accounts@[pre.len() as int].id == req.id);
    }
    Ok(())
}

/// Reports an account's standing without changing anything: the stored
/// fields together with the accrual pending at `now`, the vault capacity and
/// its usage.
pub fn peek(store: &AccountStore, cfg: &EngineConfig, id: u64, now: u64) -> (r: Result<
    StatusReport,
    EngineError,
>)
    requires
        store.wf(),
        cfg.wf(),
        store.spec_clock_ok(now),
    ensures
        match r {
            Ok(rep) => store.spec_contains_id(id) && forall|i: int|
                0 <= i < store.accounts@.len() && (#[trigger] store.accounts@[i]).id == id ==> {
                    let a = store.accounts@[i];
                    &&& cfg.capacities.spec_has_tier(a.vault_tier)
                    &&& {
                        let cap = cfg.capacities.spec_capacity(a.vault_tier)->Some_0;
                        report_for(
                            rep,
                            a,
                            cap,
                            spec_pending(
                                (now - a.last_accrual) as nat,
                                a.rate_per_hour as nat,
                                cap as nat,
                            ) as u64,
                        )
                    }
                },
            Err(e) => (e == EngineError::NotFound || e == EngineError::Inconsistent) && (e
                == EngineError::NotFound <==> !store.spec_contains_id(id)),
        },
        r == Err::<StatusReport, EngineError>(EngineError::Inconsistent)
            <==> (store.spec_contains_id(id) && forall|i: int|
            0 <= i < store.accounts@.len() && (#[trigger] store.accounts@[i]).id == id
                ==> !cfg.capacities.spec_has_tier(store.accounts@[i].vault_tier)),
{
    let idx = match store.find_index(id) {
        None => {
            return Err(EngineError::NotFound);
        },
        Some(i) => i,
    };
    let a = &store.accounts[idx];
    let cap = match cfg.capacities.capacity_of(a.vault_tier) {
        None => {
            proof {
                assert forall|i: int|
                    0 <= i < store.accounts@.len() && (#[trigger] store.accounts@[i]).id == id
                    implies !cfg.capacities.spec_has_tier(store.accounts@[i].vault_tier) by {
                    assert(i == idx as int);
                }
            }
            return Err(EngineError::Inconsistent);
        },
        Some(c) => c,
    };
    proof {
        cfg.capacities.lemma_capacity_positive(a.vault_tier);
    }
    let p = pending_accrual(a.last_accrual, now, a.rate_per_hour, cap);
    let rep = build_report(a, cap, p);
    proof {
        assert forall|i: int|
            0 <= i < store.accounts@.len() && (#[trigger] store.accounts@[i]).id == id implies i
            == idx as int by {}
    }
    Ok(rep)
}

/// Settles the pending accrual at `now` into the account's balance and
/// reports the result: the settled amount is added to the balance, the
/// settlement time moves to `now`, and the report shows the settled record
/// with the amount that was just added.
pub fn claim(store: &mut AccountStore, cfg: &EngineConfig, id: u64, now: u64) -> (r: Result<
    StatusReport,
    EngineError,
>)
    requires
        old(store).wf(),
        cfg.wf(),
        old(store).spec_clock_ok(now),
    ensures
        final(store).wf(),
        final(store).spec_clock_ok(now),
        r is Err ==> *final(store) == *old(store),
        match r {
            Ok(rep) => {
                &&& old(store).spec_contains_id(id)
                &&& final(store).accounts@.len() == old(store).accounts@.len()
                &&& forall|i: int|
                    0 <= i < old(store).accounts@.len() && (#[trigger] old(store).accounts@[i]).id == id ==> {
                        let a = old(store).accounts@[i];
                        &&& cfg.capacities.spec_has_tier(a.vault_tier)
                        &&& {
                            let cap = cfg.capacities.spec_capacity(a.vault_tier)->Some_0;
                            let p = spec_pending(
                                (now - a.last_accrual) as nat,
                                a.rate_per_hour as nat,
                                cap as nat,
                            ) as u64;
                            &&& spec_settled(final(store).accounts@[i], a, p, now)
                            &&& report_for(rep, final(store).accounts@[i], cap, p)
                            &&& forall|k: int|
                                0 <= k < old(store).accounts@.len() && k != i ==> final(store).accounts@[k]
                                    == old(store).accounts@[k]
                        }
                    }
            },
            Err(e) => (e == EngineError::NotFound || e == EngineError::Inconsistent) && (e
                == EngineError::NotFound <==> !old(store).spec_contains_id(id)),
        },
        r == Err::<StatusReport, EngineError>(EngineError::Inconsistent)
            <==> (old(store).spec_contains_id(id) && forall|i: int|
            0 <= i < old(store).accounts@.len() && (#[trigger] old(store).accounts@[i]).id == id
                ==> !cfg.capacities.spec_has_tier(old(store).accounts@[i].vault_tier)),
{
    let idx = match store.find_index(id) {
        None => {
            return Err(EngineError::NotFound);
        },
        Some(i) => i,
    };
    let tier = store.accounts[idx].vault_tier;
    let cap = match cfg.capacities.capacity_of(tier) {
        None => {
            proof {
                assert forall|i: int|
                    0 <= i < store.accounts@.len() && (#[trigger] store.accounts@[i]).id == id
                    implies !cfg.capacities.spec_has_tier(store.accounts@[i].vault_tier) by {
                    assert(i == idx as int);
                }
            }
            return Err(EngineError::Inconsistent);
        },
        Some(c) => c,
    };
    proof {
        cfg.capacities.lemma_capacity_positive(tier);
    }
    let ghost pre = store.accounts@;
    let mut a = store.accounts.remove(idx);
    let p = pending_accrual(a.last_accrual, now, a.rate_per_hour, cap);
    a.balance = sat_add(a.balance, p);
    a.last_accrual = now;
    let rep = build_report(&a, cap, p);
    store.accounts.insert(idx, a);
    proof {
        assert(store.accounts@ =~= pre.update(idx as int, store.accounts@[idx as int]));
        assert forall|i: int| 0 <= i < pre.len() && (#[trigger] pre[i]).id == id implies i
            == idx as int by {}
    }
    Ok(rep)
}

} // verus!
