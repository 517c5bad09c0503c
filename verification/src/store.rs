//! In-memory account store.
//!
//! One record per account, looked up by id or by referral code.  The engine
//! treats persistence as the caller's concern: a process that keeps records
//! elsewhere loads them into a store, runs the engine, and writes the changed
//! records back.

use vstd::prelude::*;
use crate::account::AccountRecord;

verus! {

/// The set of account records, with unique ids.
pub struct AccountStore {
    pub accounts: Vec<AccountRecord>,
}

/// Record `i` of `s` carries referral code `code`.
pub open spec fn spec_code_match_at(s: Seq<AccountRecord>, code: Seq<u8>, i: int) -> bool {
    0 <= i < s.len() && s[i].referral_code@ == code
}

/// Some record of `s` carries referral code `code`.
pub open spec fn spec_has_code(s: Seq<AccountRecord>, code: Seq<u8>) -> bool {
    exists|i: int| spec_code_match_at(s, code, i)
}

/// Record `i` is the first record of `s` carrying `code`.
pub open spec fn spec_first_code_match(s: Seq<AccountRecord>, code: Seq<u8>, i: int) -> bool {
    &&& spec_code_match_at(s, code, i)
    &&& forall|k: int| 0 <= k < i ==> (#[trigger] s[k]).referral_code@ != code
}

impl AccountStore {
    /// Ids are unique.
    pub open spec fn wf(self) -> bool {
        forall|i: int, j: int|
            0 <= i < j < self.accounts@.len() ==> (#[trigger] self.accounts@[i]).id != (
            #[trigger] self.accounts@[j]).id
    }

    /// Some record carries id `id`.
    pub open spec fn spec_contains_id(self, id: u64) -> bool {
        exists|i: int| 0 <= i < self.accounts@.len() && (#[trigger] self.accounts@[i]).id == id
    }

    /// No stored settlement time lies in the future of `now`.
    pub open spec fn spec_clock_ok(self, now: u64) -> bool {
        forall|i: int|
            0 <= i < self.accounts@.len() ==> (#[trigger] self.accounts@[i]).last_accrual <= now
    }

    /// An empty store.
    pub fn new() -> (s: AccountStore)
        ensures
            s.wf(),
            s.accounts@.len() == 0,
    {
        AccountStore { accounts: Vec::new() }
    }

    /// Index of the record with id `id`, if one is stored.
    pub fn find_index(&self, id: u64) -> (r: Option<usize>)
        ensures
            match r {
                Some(i) => i < self.accounts@.len() && self.accounts@[i as int].id == id,
                None => !self.spec_contains_id(id),
            },
    {
        let n = self.accounts.len();
        let mut i: usize = 0;
        while i < n
            invariant
                0 <= i <= n,
                n == self.accounts@.len(),
                forall|k: int| 0 <= k < i ==> (#[trigger] self.accounts@[k]).id != id,
            decreases n - i,
        {
            if self.accounts[i].id == id {
                return Some(i);
            }
            i = i + 1;
        }
        None
    }

    /// Index of the first record whose referral code is `code`, if any record
    /// carries it.
    pub fn find_by_code(&self, code: &[u8]) -> (r: Option<usize>)
        ensures
            match r {
                Some(i) => spec_first_code_match(self.accounts@, code@, i as int),
                None => !spec_has_code(self.accounts@, code@),
            },
    {
        let n = self.accounts.len();
        let mut i: usize = 0;
        while i < n
            invariant
                0 <= i <= n,
                n == self.accounts@.len(),
                forall|k: int| 0 <= k < i ==> (#[trigger] self.accounts@[k]).referral_code@ != code@,
            decreases n - i,
        {
            if bytes_eq(self.accounts[i].referral_code.as_slice(), code) {
                return Some(i);
            }
            i = i + 1;
        }
        None
    }
}

/// Whether two byte strings are equal.
pub fn bytes_eq(a: &[u8], b: &[u8]) -> (r: bool)
    ensures
        r <==> a@ == b@,
{
    if a.len() != b.len() {
        return false;
    }
    let n = a.len();
    let mut i: usize = 0;
    while i < n
        invariant
            0 <= i <= n,
            n == a@.len(),
            n == b@.len(),
            forall|k: int| 0 <= k < i ==> a@[k] == b@[k],
        decreases n - i,
    {
        if a[i] != b[i] {
            return false;
        }
        i = i + 1;
    }
    proof {
        assert(a@ =~= b@);
    }
    true
}

} // verus!
