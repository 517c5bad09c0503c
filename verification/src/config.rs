//! Static economy configuration.
//!
//! The capacity table maps a vault tier to the most currency that vault can
//! hold; the remaining knobs are the hourly rate given to fresh accounts, the
//! one-time referral bonus, and the shared secret that guards registration.
//! All of it is fixed for the life of the engine: nothing here is per-account
//! state.

use vstd::prelude::*;

verus! {

/// Mapping from vault tier to vault capacity.  A well-formed table has
/// distinct tiers and only positive capacities, so a lookup result is unique
/// and a vault can always hold something.
pub struct CapacityTable {
    pub entries: Vec<(u8, u32)>,
}

impl CapacityTable {
    /// Tiers are distinct and every capacity is positive.
    pub open spec fn wf(self) -> bool {
        &&& forall|i: int, j: int|
            0 <= i < j < self.entries@.len() ==> (#[trigger] self.entries@[i]).0 != (
            #[trigger] self.entries@[j]).0
        &&& forall|i: int| 0 <= i < self.entries@.len() ==> (#[trigger] self.entries@[i]).1 >= 1
    }

    /// Some entry of the table carries `tier`.
    pub open spec fn spec_has_tier(self, tier: u8) -> bool {
        exists|i: int| 0 <= i < self.entries@.len() && (#[trigger] self.entries@[i]).0 == tier
    }

    /// The capacity recorded for `tier`, if the table has one.  In a
    /// well-formed table at most one entry carries `tier`, so the choice is
    /// determined.
    pub open spec fn spec_capacity(self, tier: u8) -> Option<u32> {
        if self.spec_has_tier(tier) {
            let i = choose|i: int|
                0 <= i < self.entries@.len() && (#[trigger] self.entries@[i]).0 == tier;
            Some(self.entries@[i].1)
        } else {
            None
        }
    }

    /// An empty table; entries are added with `add_entry`.
    pub fn new() -> (t: CapacityTable)
        ensures
            t.wf(),
            t.entries@.len() == 0,
    {
        CapacityTable { entries: Vec::new() }
    }

    /// Appends a tier with a positive capacity not yet present in the table.
    pub fn add_entry(&mut self, tier: u8, capacity: u32)
        requires
            old(self).wf(),
            capacity >= 1,
            !old(self).spec_has_tier(tier),
        ensures
            final(self).wf(),
            final(self).entries@ == old(self).entries@.push((tier, capacity)),
    {
        let ghost pre = self.entries@;
        self.entries.push((tier, capacity));
        proof {
            assert(forall|i: int| 0 <= i < pre.len() ==> (#[trigger] pre[i]).0 != tier);
            assert(self.entries@[pre.len() as int] == (tier, capacity));
        }
    }


    /// Every capacity a well-formed table hands out is positive.
    pub proof fn lemma_capacity_positive(self, tier: u8)
        requires
            self.wf(),
        ensures
            self.spec_capacity(tier) is Some ==> self.spec_capacity(tier)->Some_0 >= 1,
    {
        if self.spec_has_tier(tier) {
            let i = choose|i: int|
                0 <= i < self.entries@.len() && (#[trigger] self.entries@[i]).0 == tier;
            assert(self.entries@[i].1 >= 1);
        }
    }

    /// The capacity a well-formed table records for the tier of its `i`-th
    /// entry is that entry's capacity.
    pub proof fn lemma_capacity_at(self, i: int)
        requires
            self.wf(),
            0 <= i < self.entries@.len(),
        ensures
            self.spec_capacity(self.entries@[i].0) == Some(self.entries@[i].1),
    {
        let tier = self.entries@[i].0;
        assert(self.spec_has_tier(tier));
        let j = choose|j: int|
            0 <= j < self.entries@.len() && (#[trigger] self.entries@[j]).0 == tier;
        assert(j == i);
    }

    /// Looks the capacity of `tier` up.
    pub fn capacity_of(&self, tier: u8) -> (r: Option<u32>)
        requires
            self.wf(),
        ensures
            r == self.spec_capacity(tier),
            r is Some <==> self.spec_has_tier(tier),
    {
        let n = self.entries.len();
        let mut i: usize = 0;
        while i < n
            invariant
                0 <= i <= n,
                n == self.entries@.len(),
                self.wf(),
                forall|k: int| 0 <= k < i ==> (#[trigger] self.entries@[k]).0 != tier,
            decreases n - i,
        {
            let (t, c) = self.entries[i];
            if t == tier {
                proof {
                    assert(self.entries@[i as int].0 == tier);
                    let j = choose|j: int|
                        0 <= j < self.entries@.len() && (#[trigger] self.entries@[j]).0 == tier;
                    assert(j == i as int);
                }
                return Some(c);
            }
            i = i + 1;
        }
        None
    }
}

/// Everything the engine is configured with.
pub struct EngineConfig {
    /// Vault tier to vault capacity.
    pub capacities: CapacityTable,
    /// Hourly accrual rate given to a freshly registered account.
    pub default_rate_per_hour: u64,
    /// One-time bonus credited to both parties of a referral.
    pub referral_bonus: u64,
    /// Secret a registration request must quote verbatim.
    pub shared_secret: Vec<u8>,
}

impl EngineConfig {
    pub open spec fn wf(self) -> bool {
        self.capacities.wf()
    }
}

/// The stock capacity table: ten vault tiers of growing size.
pub fn standard_capacities() -> (t: CapacityTable)
    ensures
        t.wf(),
        t.spec_capacity(1) == Some(5000u32),
        t.spec_capacity(2) == Some(12000u32),
        t.spec_capacity(3) == Some(50000u32),
        t.spec_capacity(4) == Some(120000u32),
        t.spec_capacity(5) == Some(450000u32),
        t.spec_capacity(6) == Some(800000u32),
        t.spec_capacity(7) == Some(1600000u32),
        t.spec_capacity(8) == Some(3500000u32),
        t.spec_capacity(9) == Some(5000000u32),
        t.spec_capacity(10) == Some(10000000u32),
        forall|tier: u8| (tier == 0 || tier > 10) ==> t.spec_capacity(tier) is None,
{
    let mut t = CapacityTable::new();
    t.add_entry(1, 5000);
    t.add_entry(2, 12000);
    t.add_entry(3, 50000);
    t.add_entry(4, 120000);
    t.add_entry(5, 450000);
    t.add_entry(6, 800000);
    t.add_entry(7, 1600000);
    t.add_entry(8, 3500000);
    t.add_entry(9, 5000000);
    t.add_entry(10, 10000000);
    proof {
        assert(t.entries@.len() == 10);
        assert(t.entries@[0] == (1u8, 5000u32));
        assert(t.entries@[1] == (2u8, 12000u32));
        assert(t.entries@[2] == (3u8, 50000u32));
        assert(t.entries@[3] == (4u8, 120000u32));
        assert(t.entries@[4] == (5u8, 450000u32));
        assert(t.entries@[5] == (6u8, 800000u32));
        assert(t.entries@[6] == (7u8, 1600000u32));
        assert(t.entries@[7] == (8u8, 3500000u32));
        assert(t.entries@[8] == (9u8, 5000000u32));
        assert(t.entries@[9] == (10u8, 10000000u32));
        t.lemma_capacity_at(0);
        t.lemma_capacity_at(1);
        t.lemma_capacity_at(2);
        t.lemma_capacity_at(3);
        t.lemma_capacity_at(4);
        t.lemma_capacity_at(5);
        t.lemma_capacity_at(6);
        t.lemma_capacity_at(7);
        t.lemma_capacity_at(8);
        t.lemma_capacity_at(9);
        assert forall|tier: u8| (tier == 0 || tier > 10) implies !t.spec_has_tier(tier) by {
            if t.spec_has_tier(tier) {
                let i = choose|i: int|
                    0 <= i < t.entries@.len() && (#[trigger] t.entries@[i]).0 == tier;
                assert(1 <= t.entries@[i].0 <= 10);
            }
        }
    }
    t
}

} // verus!
