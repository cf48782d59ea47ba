use vstd::prelude::*;
use vstd::wrapping::i32_specs;

verus! {

/// The shared resource of the lock benchmark: one integer counter.
pub struct Element {
    pub data: i32,
}

/// One read/write mix of the Mutex-versus-RwLock benchmark.
pub struct BenchConfig {
    pub name: &'static str,
    pub num_readers: usize,
    pub num_writers: usize,
    /// Outer read iterations per reader thread.
    pub reads_per_reader: usize,
    /// Writes per writer thread.
    pub writes_per_writer: usize,
    /// How many times a reader re-reads the field while it holds the lock.
    pub read_inner_loops: usize,
}

/// Default number of re-reads done under a held lock.
pub const READ_INNER_LOOPS_DEFAULT: usize = 512;

/// Outer read iterations of one benchmark run, summed over all reader threads.
pub const TOTAL_READS_PER_RUN: usize = 1_200_000;

/// Writes of one benchmark run, summed over all writer threads.
pub const TOTAL_WRITES_PER_RUN: i32 = 20_000;

/// Measured rounds per lock kind and scenario.
pub const BENCH_ROUNDS: usize = 7;

/// Unmeasured warm-up rounds per scenario.
pub const WARMUP_ROUNDS: usize = 1;

impl BenchConfig {
    /// The counter value that all writers together should reach.
    pub open spec fn spec_total_writes(self) -> int {
        self.num_writers * self.writes_per_writer
    }

    /// The counter value that all writers together should reach in one run.
    pub fn total_writes_expected(&self) -> (r: usize)
        requires
            self.num_writers * self.writes_per_writer <= usize::MAX,
        ensures
            r == self.spec_total_writes(),
            r == self.num_writers * self.writes_per_writer,
    {
        self.num_writers * self.writes_per_writer
    }
}

/// The expected total is the plain product of writers and writes per writer, with no
/// cap: no writers give `0`, and one more writer adds one more writer's writes.
pub proof fn lemma_total_writes_product(c: BenchConfig, d: BenchConfig)
    requires
        d.num_writers == c.num_writers + 1,
        d.writes_per_writer == c.writes_per_writer,
    ensures
        c.spec_total_writes() == c.num_writers * c.writes_per_writer,
        c.num_writers == 0 ==> c.spec_total_writes() == 0,
        d.spec_total_writes() == c.spec_total_writes() + c.writes_per_writer,
{
    assert((c.num_writers + 1) * c.writes_per_writer == c.num_writers * c.writes_per_writer
        + c.writes_per_writer) by (nonlinear_arith);
}

/// The four benchmark scenarios. Every scenario performs the same number of outer
/// reads, and every scenario with writers performs the same number of writes, so
/// that the timings can be compared with one another.
pub fn scenarios() -> (r: [BenchConfig; 4])
    ensures
        r@[0].name@ == "READ_ONLY + fat_read (RwLock이 이기기 쉬운 구조)"@,
        r@[0].num_readers == 32 && r@[0].num_writers == 0,
        r@[0].reads_per_reader == 37_500 && r@[0].writes_per_writer == 0,
        r@[0].read_inner_loops == 1024,
        r@[1].name@ == "read_heavy + fat_read (RwLock 유리 후보)"@,
        r@[1].num_readers == 32 && r@[1].num_writers == 2,
        r@[1].reads_per_reader == 37_500 && r@[1].writes_per_writer == 10_000,
        r@[1].read_inner_loops == READ_INNER_LOOPS_DEFAULT,
        r@[2].name@ == "balanced + fat_read"@,
        r@[2].num_readers == 8 && r@[2].num_writers == 8,
        r@[2].reads_per_reader == 150_000 && r@[2].writes_per_writer == 2_500,
        r@[2].read_inner_loops == READ_INNER_LOOPS_DEFAULT,
        r@[3].name@ == "write_heavy + thin_read (Mutex 유리 후보)"@,
        r@[3].num_readers == 2 && r@[3].num_writers == 16,
        r@[3].reads_per_reader == 600_000 && r@[3].writes_per_writer == 1_250,
        r@[3].read_inner_loops == 1,
        forall|i: int|
            0 <= i < 4 ==> #[trigger] r@[i].num_readers * r@[i].reads_per_reader
                == TOTAL_READS_PER_RUN,
        r@[0].spec_total_writes() == 0,
        forall|i: int| 1 <= i < 4 ==> #[trigger] r@[i].spec_total_writes() == TOTAL_WRITES_PER_RUN,
{
    let total_reads = TOTAL_READS_PER_RUN;
    let total_writes = TOTAL_WRITES_PER_RUN as usize;
    let r = [
        BenchConfig {
            name: "READ_ONLY + fat_read (RwLock이 이기기 쉬운 구조)",
            num_readers: 32,
            num_writers: 0,
            reads_per_reader: total_reads / 32,
            writes_per_writer: 0,
            read_inner_loops: 1024,
        },
        BenchConfig {
            name: "read_heavy + fat_read (RwLock 유리 후보)",
            num_readers: 32,
            num_writers: 2,
            reads_per_reader: total_reads / 32,
            writes_per_writer: total_writes / 2,
            read_inner_loops: READ_INNER_LOOPS_DEFAULT,
        },
        BenchConfig {
            name: "balanced + fat_read",
            num_readers: 8,
            num_writers: 8,
            reads_per_reader: total_reads / 8,
            writes_per_writer: total_writes / 8,
            read_inner_loops: READ_INNER_LOOPS_DEFAULT,
        },
        BenchConfig {
            name: "write_heavy + thin_read (Mutex 유리 후보)",
            num_readers: 2,
            num_writers: 16,
            reads_per_reader: total_reads / 2,
            writes_per_writer: total_writes / 16,
            read_inner_loops: 1,
        },
    ];
    assert(r@[0].num_readers * r@[0].reads_per_reader == 32 * 37_500);
    assert(r@[1].num_readers * r@[1].reads_per_reader == 32 * 37_500);
    assert(r@[2].num_readers * r@[2].reads_per_reader == 8 * 150_000);
    assert(r@[3].num_readers * r@[3].reads_per_reader == 2 * 600_000);
    assert(r@[1].spec_total_writes() == 2 * 10_000);
    assert(r@[2].spec_total_writes() == 8 * 2_500);
    assert(r@[3].spec_total_writes() == 16 * 1_250);
    r
}

/// `x` added to itself `n` times, starting from zero, with two's-complement wrap-around.
pub open spec fn repeated_wrapping_sum(x: i32, n: nat) -> i32
    decreases n,
{
    if n == 0 {
        0
    } else {
        i32_specs::wrapping_add(repeated_wrapping_sum(x, (n - 1) as nat), x)
    }
}

/// `std::hint::black_box`, which its documentation describes as an identity function
/// that the optimiser may not see through; the contract claims only the identity.
#[verifier::external_body]
fn black_box_i32(x: i32) -> (r: i32)
    ensures
        r == x,
{
    std::hint::black_box(x)
}

/// The read work that a benchmark reader does while it holds the lock: it reads
/// the counter `inner` times and sums the readings with wrap-around.
pub fn read_work_while_locked(read_guard: &Element, inner: usize) -> (r: i32)
    ensures
        r == repeated_wrapping_sum(read_guard.data, inner as nat),
{
    let mut acc: i32 = 0;
    let mut k: usize = 0;
    while k < inner
        invariant
            k <= inner,
            acc == repeated_wrapping_sum(read_guard.data, k as nat),
        decreases inner - k,
    {
        acc = acc.wrapping_add(black_box_i32(read_guard.data));
        k = k + 1;
    }
    black_box_i32(acc)
}


/// Sum of a sequence of nanosecond counts.
pub open spec fn seq_sum(s: Seq<u128>) -> int
    decreases s.len(),
{
    if s.len() == 0 {
        0
    } else {
        seq_sum(s.drop_last()) + s.last()
    }
}

/// The sequence is in non-decreasing order.
pub open spec fn is_sorted(s: Seq<u128>) -> bool {
    forall|a: int, b: int| 0 <= a <= b < s.len() ==> s[a] <= s[b]
}

/// Mean of the samples, in nanoseconds, rounded down and truncated to 64 bits as
/// `Duration::from_nanos` receives it.
pub fn duration_avg(samples: &[u128]) -> (r: u64)
    requires
        samples@.len() > 0,
        seq_sum(samples@) <= u128::MAX,
    ensures
        r == (seq_sum(samples@) / (samples@.len() as int)) as u64,
{
    let n = samples.len();
    let mut sum: u128 = 0;
    let mut i: usize = 0;
    while i < n
        invariant
            n == samples@.len(),
            i <= n,
            sum == seq_sum(samples@.take(i as int)),
            seq_sum(samples@) <= u128::MAX,
        decreases n - i,
    {
        proof {
            assert(samples@.take(i + 1).drop_last() =~= samples@.take(i as int));
            lemma_prefix_sum_le(samples@, i + 1);
        }
        sum = sum + samples[i];
        i = i + 1;
    }
    assert(samples@.take(n as int) =~= samples@);
    (sum / (n as u128)) as u64
}

/// Prefix sums of non-negative numbers never exceed the whole sum.
proof fn lemma_prefix_sum_le(s: Seq<u128>, k: int)
    requires
        0 <= k <= s.len(),
    ensures
        seq_sum(s.take(k)) <= seq_sum(s),
    decreases s.len() - k,
{
    if k < s.len() {
        lemma_prefix_sum_le(s, k + 1);
        assert(s.take(k + 1).drop_last() =~= s.take(k));
    } else {
        assert(s.take(k) =~= s);
    }
}

/// Smallest sample.
pub fn duration_min(samples: &[u128]) -> (r: u128)
    requires
        samples@.len() > 0,
    ensures
        samples@.contains(r),
        forall|i: int| 0 <= i < samples@.len() ==> r <= #[trigger] samples@[i],
{
    let mut best: u128 = samples[0];
    let mut i: usize = 1;
    while i < samples.len()
        invariant
            1 <= i <= samples@.len(),
            samples@.contains(best),
            forall|k: int| 0 <= k < i ==> best <= #[trigger] samples@[k],
        decreases samples@.len() - i,
    {
        if samples[i] < best {
            best = samples[i];
        }
        i = i + 1;
    }
    best
}

/// Swapping two positions keeps the multiset of values.
proof fn lemma_swap_multiset(s: Seq<u128>, i: int, j: int)
    requires
        0 <= i < s.len(),
        0 <= j < s.len(),
    ensures
        s.update(i, s[j]).update(j, s[i]).to_multiset() == s.to_multiset(),
{
    if i == j {
        assert(s.update(i, s[j]).update(j, s[i]) =~= s);
    } else {
        broadcast use vstd::seq_lib::to_multiset_update;
        broadcast use vstd::multiset::group_multiset_axioms;
        let m = s.to_multiset();
        let t = s.update(i, s[j]);
        assert(t.to_multiset() == m.insert(s[j]).remove(s[i]));
        assert(t[j] == s[j]);
        assert(t.update(j, s[i]).to_multiset() == t.to_multiset().insert(s[i]).remove(s[j]));
        assert(m.count(s[i]) > 0) by {
            assert(s.contains(s[i]));
            broadcast use vstd::seq_lib::to_multiset_contains;
        }
        assert(t.update(j, s[i]).to_multiset() =~= m);
    }
}

/// Sorts the samples in place (insertion sort).
fn sort_samples(v: &mut Vec<u128>)
    ensures
        final(v)@.len() == old(v)@.len(),
        final(v)@.to_multiset() == old(v)@.to_multiset(),
        is_sorted(final(v)@),
{
    let n = v.len();
    let mut i: usize = 1;
    if n == 0 {
        return;
    }
    while i < n
        invariant
            n == v@.len(),
            1 <= i <= n,
            v@.to_multiset() == old(v)@.to_multiset(),
            forall|a: int, b: int| 0 <= a <= b < i ==> v@[a] <= v@[b],
        decreases n - i,
    {
        let mut j: usize = i;
        while j > 0 && v[j - 1] > v[j]
            invariant
                n == v@.len(),
                1 <= i < n,
                j <= i,
                v@.to_multiset() == old(v)@.to_multiset(),
                forall|a: int, b: int| 0 <= a <= b < j ==> v@[a] <= v@[b],
                forall|a: int, b: int| j < a <= b <= i ==> v@[a] <= v@[b],
                forall|a: int, b: int| 0 <= a < j && j < b <= i ==> v@[a] <= v@[b],
                forall|b: int| j < b <= i ==> v@[j as int] < v@[b],
            decreases j,
        {
            let x = v[j - 1];
            let y = v[j];
            proof {
                lemma_swap_multiset(v@, j - 1, j as int);
            }
            v.set(j - 1, y);
            v.set(j, x);
            j = j - 1;
        }
        i = i + 1;
    }
}

/// Median sample: sorts the samples in place and returns the element at the middle
/// index (the upper middle for an even count).
pub fn duration_median(samples: &mut Vec<u128>) -> (r: u128)
    requires
        old(samples)@.len() > 0,
    ensures
        final(samples)@.len() == old(samples)@.len(),
        final(samples)@.to_multiset() == old(samples)@.to_multiset(),
        is_sorted(final(samples)@),
        r == final(samples)@[(old(samples)@.len() / 2) as int],
{
    sort_samples(samples);
    samples[samples.len() / 2]
}

/// Which lock had the shorter time: `"Mutex"`, `"RwLock"`, or `"동일"` for a tie.
pub fn faster(mutex_t: u128, rwlock_t: u128) -> (r: &'static str)
    ensures
        mutex_t < rwlock_t ==> r@ == "Mutex"@,
        rwlock_t < mutex_t ==> r@ == "RwLock"@,
        mutex_t == rwlock_t ==> r@ == "동일"@,
{
    if mutex_t < rwlock_t {
        "Mutex"
    } else if rwlock_t < mutex_t {
        "RwLock"
    } else {
        "동일"
    }
}

} // verus!
