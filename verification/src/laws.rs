//! Engine-wide properties, stated and proved once.

use vstd::prelude::*;
use crate::account::AccountRecord;
use crate::accrual::{spec_pending, spec_sat_add};
use crate::config::EngineConfig;
use crate::engine::{RegisterRequest, spec_register_plain, spec_register_referred};
use crate::store::AccountStore;

verus! {

/// Pending accrual never exceeds the vault capacity, however much time has
/// elapsed: capping clamps the raw accrual to the capacity.
pub proof fn lemma_pending_within_capacity(elapsed: nat, rate: nat, capacity: nat)
    ensures
        spec_pending(elapsed, rate, capacity) <= capacity,
{
}

/// Peeking is idempotent: the pending accrual reported is a function of the
/// stored record and the clock reading alone, and a peek changes neither, so
/// two peeks with no elapsed time between them report the same amount.
pub proof fn lemma_peek_idempotent(
    last_accrual: u64,
    rate: u64,
    capacity: u32,
    now_first: u64,
    now_second: u64,
)
    requires
        now_first == now_second,
    ensures
        spec_pending((now_first - last_accrual) as nat, rate as nat, capacity as nat)
            == spec_pending((now_second - last_accrual) as nat, rate as nat, capacity as nat),
{
}

/// Claiming twice at the same instant is a no-op on the balance: the first
/// claim moves the settlement time to `now`, so the second sees zero elapsed
/// time, accrues nothing, and adds nothing.
pub proof fn lemma_claim_again_no_op(balance: u64, rate: u64, capacity: u32, now: u64)
    ensures
        spec_pending((now - now) as nat, rate as nat, capacity as nat) == 0,
        spec_sat_add(
            balance,
            spec_pending((now - now) as nat, rate as nat, capacity as nat) as u64,
        ) == balance,
{
}

/// A registration that grants a referral increases the referrer's list of
/// referred accounts by exactly one, credits the bonus to the referrer
/// exactly once, starts the new account with the bonus exactly once, and
/// touches no other record.
pub proof fn lemma_referral_bonus_granted_once(
    pre: Seq<AccountRecord>,
    post: Seq<AccountRecord>,
    cfg: EngineConfig,
    req: RegisterRequest,
    now: u64,
    j: int,
)
    requires
        0 <= j < pre.len(),
        spec_register_referred(pre, post, cfg, req, now, j),
    ensures
        post[j].referred@.len() == pre[j].referred@.len() + 1,
        post[j].referred@.last() == req.id,
        post[j].balance == spec_sat_add(pre[j].balance, cfg.referral_bonus),
        post[post.len() - 1].balance == cfg.referral_bonus,
        forall|k: int| 0 <= k < pre.len() && k != j ==> post[k] == pre[k],
{
}

/// Registering an id a second time meets `register`'s conflict case: a
/// successful registration leaves the new id present in the store, and
/// `register` returns `Conflict` and changes nothing exactly when the id is
/// already present.
pub proof fn lemma_registered_id_is_present(
    s1: AccountStore,
    s2: AccountStore,
    cfg: EngineConfig,
    req: RegisterRequest,
    now: u64,
)
    requires
        spec_register_plain(s1.accounts@, s2.accounts@, cfg, req, now) || (exists|j: int|
            spec_register_referred(s1.accounts@, s2.accounts@, cfg, req, now, j)),
    ensures
        s2.spec_contains_id(req.id),
{
    assert(s2.accounts@[s1.accounts@.len() as int].id == req.id);
}

} // verus!
