use vstd::prelude::*;
use vstd::wrapping::u64_specs;

verus! {

/// Number of slots; keys are exactly `0..SLOTS`.
pub const SLOTS: usize = 16;

/// A map from the keys `0..SLOTS` to counters, one slot per key.
/// Every change goes through `&mut self`, so a value shared between threads needs
/// exclusive access, such as a lock around it; the type itself is not atomic.
pub struct AtomicSlotMap {
    slots: [u64; 16],
}

/// The counters after adding `delta` (with wrap-around) to the counter of `key`.
pub open spec fn spec_add(m: Seq<u64>, key: int, delta: u64) -> Seq<u64> {
    m.update(key, u64_specs::wrapping_add(m[key], delta))
}

impl AtomicSlotMap {
    /// The counters, indexed by key.
    pub closed spec fn counts(self) -> Seq<u64> {
        self.slots@
    }

    /// There is one counter per key.
    pub proof fn lemma_len(self)
        ensures
            self.counts().len() == SLOTS,
    {
    }

    /// All counters start at zero.
    pub fn new() -> (r: AtomicSlotMap)
        ensures
            r.counts().len() == SLOTS,
            forall|k: int| 0 <= k < SLOTS ==> #[trigger] r.counts()[k] == 0,
    {
        AtomicSlotMap { slots: [0u64; 16] }
    }

    /// Adds `delta` to the counter of `key`, wrapping around on overflow.
    pub fn add(&mut self, key: usize, delta: u64)
        requires
            key < SLOTS,
        ensures
            final(self).counts() == spec_add(old(self).counts(), key as int, delta),
    {
        let cur = self.slots[key];
        self.slots[key] = cur.wrapping_add(delta);
    }

    /// The counter of `key`.
    pub fn get(&self, key: usize) -> (r: u64)
        requires
            key < SLOTS,
        ensures
            r == self.counts()[key as int],
    {
        self.slots[key]
    }
}

/// Additions commute: two additions give the same counters in either order, so
/// concurrent additions to the same or to different keys end in one result.
pub proof fn lemma_add_commutes(m: Seq<u64>, k1: int, d1: u64, k2: int, d2: u64)
    requires
        0 <= k1 < m.len(),
        0 <= k2 < m.len(),
    ensures
        spec_add(spec_add(m, k1, d1), k2, d2) == spec_add(spec_add(m, k2, d2), k1, d1),
{
    if k1 == k2 {
        let a = m[k1];
        assert(u64_specs::wrapping_add(u64_specs::wrapping_add(a, d1), d2)
            == u64_specs::wrapping_add(u64_specs::wrapping_add(a, d2), d1));
    }
    assert(spec_add(spec_add(m, k1, d1), k2, d2) =~= spec_add(spec_add(m, k2, d2), k1, d1));
}

/// The counters after adding `1` to `key`, `n` times.
pub open spec fn spec_add_ones(m: Seq<u64>, key: int, n: nat) -> Seq<u64>
    decreases n,
{
    if n == 0 {
        m
    } else {
        spec_add(spec_add_ones(m, key, (n - 1) as nat), key, 1)
    }
}

/// Adding `1` to a counter `n` times raises it by `n` (while no wrap-around
/// happens) and leaves every other counter alone.
pub proof fn lemma_add_ones(m: Seq<u64>, key: int, n: nat)
    requires
        0 <= key < m.len(),
        m[key] + n <= u64::MAX,
    ensures
        spec_add_ones(m, key, n).len() == m.len(),
        spec_add_ones(m, key, n)[key] == m[key] + n,
        forall|k: int| 0 <= k < m.len() && k != key ==> #[trigger] spec_add_ones(m, key, n)[k] == m[k],
    decreases n,
{
    if n > 0 {
        lemma_add_ones(m, key, (n - 1) as nat);
    }
}

} // verus!
