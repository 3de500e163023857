//! The latency monitor: rolling in-memory samples plus cumulative
//! statistics for arbitrary named operations.
//!
//! A measurement is taken outside (the clock is a collaborator) and
//! handed in as an elapsed duration in milliseconds. Each operation keeps
//! a bounded ring of the most recent [`RING_CAPACITY`] samples — oldest
//! evicted first — for average and percentile queries, and an unbounded
//! cumulative statistic (count, sum, min, max) that is never reset except
//! by an explicit clear. The laws at the end of this module state the
//! ring bound and the running-average guarantee over arbitrary
//! measurement sequences.

use vstd::prelude::*;
use vstd::relations::{sorted_by, total_ordering};
use vstd::seq_lib::lemma_sorted_unique;
use vstd::arithmetic::div_mod::{lemma_div_is_ordered, lemma_div_multiples_vanish};
use crate::units::mul_wide;

verus! {

/// How many samples an operation's in-memory ring retains.
pub const RING_CAPACITY: usize = 100;

/// A sample ordering for sorting rings.
pub open spec fn le(a: u64, b: u64) -> bool {
    a <= b
}

/// The unique ascending reordering of a sample sequence.
pub open spec fn sorted_view(s: Seq<u64>) -> Seq<u64> {
    s.sort_by(|a: u64, b: u64| le(a, b))
}

/// Sum of a sample sequence.
pub open spec fn seq_sum(s: Seq<u64>) -> int
    decreases s.len(),
{
    if s.len() == 0 {
        0
    } else {
        seq_sum(s.drop_last()) + s.last()
    }
}

/// Bounded ring of the most recent samples for one operation, oldest
/// evicted first.
pub struct SampleRing {
    samples: Vec<u64>,
}

impl View for SampleRing {
    type V = Seq<u64>;

    closed spec fn view(&self) -> Seq<u64> {
        self.samples@
    }
}

/// What one recorded sample does to a ring's contents.
pub open spec fn push_evict(s: Seq<u64>, v: u64) -> Seq<u64> {
    if s.len() < RING_CAPACITY as int {
        s.push(v)
    } else {
        s.push(v).drop_first()
    }
}

impl SampleRing {
    pub closed spec fn wf(&self) -> bool {
        self.samples@.len() <= RING_CAPACITY as int
    }

    pub fn new() -> (r: SampleRing)
        ensures
            r@ == Seq::<u64>::empty(),
            r.wf(),
    {
        SampleRing { samples: Vec::new() }
    }

    /// Appends a sample; when the ring already holds [`RING_CAPACITY`]
    /// samples, the oldest is evicted.
    pub fn record(&mut self, v: u64)
        requires
            old(self).wf(),
        ensures
            final(self)@ == push_evict(old(self)@, v),
            final(self).wf(),
    {
        self.samples.push(v);
        if self.samples.len() > RING_CAPACITY {
            self.samples.remove(0);
            proof {
                assert(self.samples@ =~= old(self).samples@.push(v).drop_first());
            }
        }
    }

    pub fn len(&self) -> (n: usize)
        ensures
            n == self@.len(),
    {
        self.samples.len()
    }

    /// The retained samples, oldest first.
    pub fn to_vec(&self) -> (r: Vec<u64>)
        ensures
            r@ == self@,
    {
        let mut r: Vec<u64> = Vec::new();
        let mut i: usize = 0;
        while i < self.samples.len()
            invariant
                0 <= i <= self.samples@.len(),
                r@ == self.samples@.subrange(0, i as int),
            decreases self.samples@.len() - i,
        {
            r.push(self.samples[i]);
            proof {
                assert(r@ =~= self.samples@.subrange(0, i as int + 1));
            }
            i = i + 1;
        }
        proof {
            assert(r@ =~= self.samples@);
        }
        r
    }
}

/// Mathematical image of a cumulative statistic.
pub struct StatsModel {
    pub count: int,
    pub sum: int,
    pub min: int,
    pub max: int,
}

pub open spec fn empty_stats() -> StatsModel {
    StatsModel { count: 0, sum: 0, min: 0, max: 0 }
}

/// What one measurement does to a cumulative statistic.
pub open spec fn stats_update(m: StatsModel, v: int) -> StatsModel {
    StatsModel {
        count: m.count + 1,
        sum: m.sum + v,
        min: if m.count == 0 {
            v
        } else if v < m.min {
            v
        } else {
            m.min
        },
        max: if v > m.max {
            v
        } else {
            m.max
        },
    }
}

/// [`stats_update`] folded over a whole measurement sequence, starting
/// from the empty statistic.
pub open spec fn fold_stats(vs: Seq<u64>) -> StatsModel
    decreases vs.len(),
{
    if vs.len() == 0 {
        empty_stats()
    } else {
        stats_update(fold_stats(vs.drop_last()), vs.last() as int)
    }
}

/// Unbounded cumulative statistic for one operation: count, sum, min and
/// max of every measurement ever recorded, never evicted.
#[derive(Clone, Copy, Debug)]
pub struct CumulativeStats {
    pub count: u64,
    pub sum: u128,
    pub min_ms: u64,
    pub max_ms: u64,
}

impl View for CumulativeStats {
    type V = StatsModel;

    open spec fn view(&self) -> StatsModel {
        StatsModel {
            count: self.count as int,
            sum: self.sum as int,
            min: self.min_ms as int,
            max: self.max_ms as int,
        }
    }
}

impl CumulativeStats {
    /// The sum of up to `u64::MAX` samples of at most `u64::MAX` each
    /// always fits its field.
    pub open spec fn wf(&self) -> bool {
        self.sum as int <= self.count as int * u64::MAX as int
    }

    pub fn new() -> (r: CumulativeStats)
        ensures
            r@ == empty_stats(),
            r.wf(),
    {
        CumulativeStats { count: 0, sum: 0, min_ms: 0, max_ms: 0 }
    }

    pub fn update(&mut self, v: u64)
        requires
            old(self).wf(),
            old(self).count < u64::MAX,
        ensures
            final(self)@ == stats_update(old(self)@, v as int),
            final(self).wf(),
    {
        proof {
            let s = old(self).sum as int;
            let c = old(self).count as int;
            assert(s + v as int <= (c + 1) * u64::MAX as int) by (nonlinear_arith)
                requires
                    s <= c * u64::MAX as int,
                    v <= u64::MAX,
            ;
        }
        self.count = self.count + 1;
        self.sum = self.sum + (v as u128);
        if self.count == 1 || v < self.min_ms {
            self.min_ms = v;
        }
        if v > self.max_ms {
            self.max_ms = v;
        }
    }

    /// Derived average: `sum / count`, rounded down; `None` before the
    /// first measurement.
    pub fn average(&self) -> (r: Option<u64>)
        requires
            self.wf(),
        ensures
            self.count == 0 ==> r is None,
            self.count > 0 ==> r == Some((self@.sum / self@.count) as u64),
    {
        if self.count == 0 {
            return None;
        }
        proof {
            lemma_div_is_ordered(
                self.sum as int,
                self.count as int * u64::MAX as int,
                self.count as int,
            );
            lemma_div_multiples_vanish(u64::MAX as int, self.count as int);
        }
        Some((self.sum / (self.count as u128)) as u64)
    }
}

/// Per-operation state of the monitor.
pub struct OperationMetrics {
    pub name: String,
    pub ring: SampleRing,
    pub stats: CumulativeStats,
}

/// Records elapsed durations of named operations, flags measurements
/// over the configured threshold, and answers average, percentile and
/// cumulative-statistics queries.
pub struct LatencyMonitor {
    pub latency_threshold_ms: u64,
    pub ops: Vec<OperationMetrics>,
}

impl LatencyMonitor {
    /// One entry per operation name, every ring bounded, every statistic
    /// within its field.
    pub open spec fn wf(&self) -> bool {
        &&& forall|i: int, j: int|
            0 <= i < j < self.ops@.len() ==> self.ops@[i].name@ != self.ops@[j].name@
        &&& forall|i: int|
            0 <= i < self.ops@.len() ==> (#[trigger] self.ops@[i]).ring.wf()
                && self.ops@[i].stats.wf()
    }

    pub open spec fn has_op(&self, name: Seq<char>) -> bool {
        exists|i: int| 0 <= i < self.ops@.len() && self.ops@[i].name@ == name
    }

    pub open spec fn op_index(&self, name: Seq<char>) -> int {
        choose|i: int| 0 <= i < self.ops@.len() && self.ops@[i].name@ == name
    }

    /// The operation's ring contents; an unknown operation reads empty.
    pub open spec fn op_ring(&self, name: Seq<char>) -> Seq<u64> {
        if self.has_op(name) {
            self.ops@[self.op_index(name)].ring@
        } else {
            Seq::<u64>::empty()
        }
    }

    /// The operation's cumulative statistic; an unknown operation reads
    /// empty.
    pub open spec fn op_stats(&self, name: Seq<char>) -> StatsModel {
        if self.has_op(name) {
            self.ops@[self.op_index(name)].stats@
        } else {
            empty_stats()
        }
    }

    pub fn new(latency_threshold_ms: u64) -> (r: LatencyMonitor)
        ensures
            r.wf(),
            r.latency_threshold_ms == latency_threshold_ms,
            forall|n: Seq<char>| !r.has_op(n),
            forall|n: Seq<char>| #[trigger] r.op_ring(n) == Seq::<u64>::empty(),
            forall|n: Seq<char>| #[trigger] r.op_stats(n) == empty_stats(),
    {
        LatencyMonitor { latency_threshold_ms, ops: Vec::new() }
    }

    /// Index of the operation's entry, when there is one.
    fn find_op(&self, operation: &String) -> (r: Option<usize>)
        requires
            self.wf(),
        ensures
            match r {
                Some(i) => i < self.ops@.len() && self.ops@[i as int].name@ == operation@
                    && self.has_op(operation@) && self.op_index(operation@) == i,
                None => !self.has_op(operation@),
            },
    {
        let mut i: usize = 0;
        while i < self.ops.len()
            invariant
                self.wf(),
                0 <= i <= self.ops@.len(),
                forall|j: int| 0 <= j < i ==> self.ops@[j].name@ != operation@,
            decreases self.ops@.len() - i,
        {
            if self.ops[i].name == *operation {
                proof {
                    assert(self.has_op(operation@));
                    let k = self.op_index(operation@);
                    assert(self.ops@[k].name@ == operation@);
                    if k != i {
                        assert(self.ops@[k].name@ != self.ops@[i as int].name@);
                    }
                }
                return Some(i);
            }
            i = i + 1;
        }
        None
    }

    /// Folds one finished measurement into the operation's ring and
    /// cumulative statistic, creating the operation on first sight, and
    /// reports whether the measurement exceeded the threshold. Every
    /// other operation is untouched.
    pub fn end_measurement(&mut self, operation: &String, elapsed_ms: u64) -> (high: bool)
        requires
            old(self).wf(),
            old(self).op_stats(operation@).count < u64::MAX as int,
        ensures
            final(self).wf(),
            high == (elapsed_ms > old(self).latency_threshold_ms),
            final(self).latency_threshold_ms == old(self).latency_threshold_ms,
            final(self).op_ring(operation@) == push_evict(old(self).op_ring(operation@), elapsed_ms),
            final(self).op_stats(operation@) == stats_update(
                old(self).op_stats(operation@),
                elapsed_ms as int,
            ),
            forall|n: Seq<char>|
                n != operation@ ==> #[trigger] final(self).op_ring(n) == old(self).op_ring(n)
                    && final(self).op_stats(n) == old(self).op_stats(n),
            forall|n: Seq<char>|
                #[trigger] final(self).has_op(n) == (old(self).has_op(n) || n == operation@),
    {
        let high: bool = elapsed_ms > self.latency_threshold_ms;
        match self.find_op(operation) {
            Some(i) => {
                let ghost old_ops = self.ops@;
                let mut op = self.ops.remove(i);
                op.ring.record(elapsed_ms);
                op.stats.update(elapsed_ms);
                self.ops.insert(i, op);
                proof {
                    assert(self.ops@ =~= old_ops.update(i as int, op));
                    self.lemma_stable_lookup(*old(self), i as int, operation@);
                }
            },
            None => {
                let ghost old_ops = self.ops@;
                let mut ring = SampleRing::new();
                ring.record(elapsed_ms);
                let mut stats = CumulativeStats::new();
                stats.update(elapsed_ms);
                let name = operation.clone();
                self.ops.push(OperationMetrics { name, ring, stats });
                proof {
                    let m = self.ops@.len() - 1;
                    assert(self.ops@[m].name@ == operation@);
                    self.lemma_appended_lookup(*old(self), operation@);
                }
            },
        }
        high
    }

    /// After updating the entry at `i` in place (same name), every
    /// lookup resolves as before.
    proof fn lemma_stable_lookup(&self, prior: LatencyMonitor, i: int, name: Seq<char>)
        requires
            prior.wf(),
            0 <= i < prior.ops@.len(),
            prior.ops@[i].name@ == name,
            self.ops@.len() == prior.ops@.len(),
            self.ops@[i].name@ == name,
            forall|j: int| 0 <= j < prior.ops@.len() && j != i ==> self.ops@[j] == prior.ops@[j],
            self.latency_threshold_ms == prior.latency_threshold_ms,
        ensures
            forall|n: Seq<char>| #[trigger] self.has_op(n) == prior.has_op(n),
            self.op_index(name) == i,
            prior.op_index(name) == i,
            forall|n: Seq<char>|
                n != name && prior.has_op(n) ==> #[trigger] self.op_index(n) == prior.op_index(n)
                    && self.ops@[self.op_index(n)] == prior.ops@[prior.op_index(n)],
            forall|n: Seq<char>|
                n != name ==> #[trigger] self.op_ring(n) == prior.op_ring(n) && self.op_stats(n)
                    == prior.op_stats(n),
            self.op_ring(name) == self.ops@[i].ring@,
            self.op_stats(name) == self.ops@[i].stats@,
            prior.op_ring(name) == prior.ops@[i].ring@,
            prior.op_stats(name) == prior.ops@[i].stats@,
    {
        assert(forall|j: int|
            0 <= j < prior.ops@.len() ==> #[trigger] self.ops@[j].name@ == prior.ops@[j].name@);
        assert forall|n: Seq<char>| #[trigger] self.has_op(n) == prior.has_op(n) by {
            if prior.has_op(n) {
                let j = prior.op_index(n);
                assert(self.ops@[j].name@ == n);
            }
            if self.has_op(n) {
                let j = self.op_index(n);
                assert(prior.ops@[j].name@ == n);
            }
        }
        assert(self.has_op(name));
        let k = self.op_index(name);
        if k != i {
            assert(prior.ops@[k].name@ != prior.ops@[i].name@);
        }
        let k2 = prior.op_index(name);
        if k2 != i {
            assert(prior.ops@[k2].name@ != prior.ops@[i].name@);
        }
        assert forall|n: Seq<char>|
            n != name && prior.has_op(n) implies #[trigger] self.op_index(n) == prior.op_index(n)
            && self.ops@[self.op_index(n)] == prior.ops@[prior.op_index(n)] by {
            let j = prior.op_index(n);
            assert(prior.ops@[j].name@ == n);
            assert(self.ops@[j].name@ == n);
            let j2 = self.op_index(n);
            assert(self.ops@[j2].name@ == n);
            if j2 != j {
                assert(prior.ops@[j2].name@ == n);
                assert(prior.ops@[j2].name@ != prior.ops@[j].name@);
            }
            assert(j != i);
        }
    }

    /// After appending an entry with a fresh name, the new name resolves
    /// to the appended entry and every other lookup resolves as before.
    proof fn lemma_appended_lookup(&self, prior: LatencyMonitor, name: Seq<char>)
        requires
            prior.wf(),
            !prior.has_op(name),
            self.ops@.len() == prior.ops@.len() + 1,
            self.ops@[self.ops@.len() - 1].name@ == name,
            forall|j: int| 0 <= j < prior.ops@.len() ==> self.ops@[j] == prior.ops@[j],
        ensures
            forall|i: int, j: int|
                0 <= i < j < self.ops@.len() ==> self.ops@[i].name@ != self.ops@[j].name@,
            forall|n: Seq<char>|
                #[trigger] self.has_op(n) == (prior.has_op(n) || n == name),
            self.op_index(name) == self.ops@.len() - 1,
            forall|n: Seq<char>|
                n != name && prior.has_op(n) ==> #[trigger] self.op_index(n) == prior.op_index(n)
                    && self.ops@[self.op_index(n)] == prior.ops@[prior.op_index(n)],
            forall|n: Seq<char>|
                n != name ==> #[trigger] self.op_ring(n) == prior.op_ring(n) && self.op_stats(n)
                    == prior.op_stats(n),
            self.op_ring(name) == self.ops@[self.ops@.len() - 1].ring@,
            self.op_stats(name) == self.ops@[self.ops@.len() - 1].stats@,
    {
        let m = self.ops@.len() - 1;
        assert forall|i: int, j: int|
            0 <= i < j < self.ops@.len() implies self.ops@[i].name@ != self.ops@[j].name@ by {
            if j < m {
            } else {
                assert(j == m);
                if self.ops@[i].name@ == name {
                    assert(prior.ops@[i].name@ == name);
                    assert(prior.has_op(name));
                }
            }
        }
        assert forall|n: Seq<char>|
            #[trigger] self.has_op(n) == (prior.has_op(n) || n == name) by {
            if prior.has_op(n) {
                let j = prior.op_index(n);
                assert(self.ops@[j].name@ == n);
            }
            if n == name {
                assert(self.ops@[m].name@ == n);
            }
            if self.has_op(n) && n != name {
                let j = self.op_index(n);
                assert(j != m);
                assert(prior.ops@[j].name@ == n);
            }
        }
        let k = self.op_index(name);
        if k != m {
            assert(prior.ops@[k].name@ == name);
            assert(prior.has_op(name));
        }
        assert forall|n: Seq<char>|
            n != name && prior.has_op(n) implies #[trigger] self.op_index(n) == prior.op_index(n)
            && self.ops@[self.op_index(n)] == prior.ops@[prior.op_index(n)] by {
            let j = prior.op_index(n);
            assert(prior.ops@[j].name@ == n);
            assert(self.ops@[j].name@ == n);
            let j2 = self.op_index(n);
            assert(self.ops@[j2].name@ == n);
            if j2 != j {
                assert(self.ops@[j2].name@ != self.ops@[j].name@);
            }
            assert(j2 < m);
        }
    }

    /// Average of the operation's in-memory ring, rounded down; `None`
    /// when no sample is held.
    pub fn get_average_latency(&self, operation: &String) -> (r: Option<u64>)
        requires
            self.wf(),
        ensures
            self.op_ring(operation@).len() == 0 ==> r is None,
            self.op_ring(operation@).len() > 0 ==> r == Some(
                (seq_sum(self.op_ring(operation@)) / self.op_ring(operation@).len() as int) as u64,
            ),
    {
        let i: usize = match self.find_op(operation) {
            Some(i) => i,
            None => {
                return None;
            },
        };
        let samples: &Vec<u64> = &self.ops[i].ring.samples;
        let n: usize = samples.len();
        if n == 0 {
            return None;
        }
        let mut sum: u128 = 0;
        let mut k: usize = 0;
        while k < n
            invariant
                n == samples@.len(),
                0 <= k <= n,
                sum as int == seq_sum(samples@.take(k as int)),
                sum as int <= k as int * u64::MAX as int,
            decreases n - k,
        {
            proof {
                assert(samples@.take(k as int + 1).drop_last() =~= samples@.take(k as int));
                assert(samples@.take(k as int + 1).last() == samples@[k as int]);
            }
            sum = sum + (samples[k] as u128);
            k = k + 1;
        }
        proof {
            assert(samples@.take(n as int) =~= samples@);
            lemma_div_is_ordered(sum as int, n as int * u64::MAX as int, n as int);
            lemma_div_multiples_vanish(u64::MAX as int, n as int);
        }
        Some((sum / (n as u128)) as u64)
    }

    /// Cumulative statistics for the operation; `None` when it was never
    /// measured.
    pub fn get_latency_stats(&self, operation: &String) -> (r: Option<CumulativeStats>)
        requires
            self.wf(),
        ensures
            match r {
                Some(s) => self.has_op(operation@) && s@ == self.op_stats(operation@),
                None => !self.has_op(operation@),
            },
    {
        match self.find_op(operation) {
            Some(i) => Some(self.ops[i].stats),
            None => None,
        }
    }

    /// Nearest-rank percentile over a sorted copy of the operation's
    /// ring: index `pct * n / 100`, clamped to the valid range. `None`
    /// when no sample is held.
    pub fn get_percentile_latency(&self, operation: &String, pct: u64) -> (r: Option<u64>)
        requires
            self.wf(),
        ensures
            self.op_ring(operation@).len() == 0 ==> r is None,
            self.op_ring(operation@).len() > 0 ==> r == Some(
                sorted_view(self.op_ring(operation@))[rank_index(
                    pct as int,
                    self.op_ring(operation@).len() as int,
                )],
            ),
    {
        let i: usize = match self.find_op(operation) {
            Some(i) => i,
            None => {
                return None;
            },
        };
        let n: usize = self.ops[i].ring.samples.len();
        if n == 0 {
            return None;
        }
        let sorted: Vec<u64> = sorted_copy(&self.ops[i].ring.samples);
        let idx128: u128 = mul_wide(pct, n as u64) / 100;
        let idx: usize = if idx128 >= (n as u128) {
            n - 1
        } else {
            idx128 as usize
        };
        proof {
            assert(idx as int == rank_index(pct as int, n as int));
        }
        Some(sorted[idx])
    }

    /// A copy of every operation's cumulative statistics, in first-seen
    /// order.
    pub fn get_all_latency_stats(&self) -> (r: Vec<(String, CumulativeStats)>)
        requires
            self.wf(),
        ensures
            r@.len() == self.ops@.len(),
            forall|i: int|
                0 <= i < r@.len() ==> (#[trigger] r@[i]).0@ == self.ops@[i].name@ && r@[i].1@
                    == self.ops@[i].stats@,
    {
        let mut r: Vec<(String, CumulativeStats)> = Vec::new();
        let mut i: usize = 0;
        while i < self.ops.len()
            invariant
                0 <= i <= self.ops@.len(),
                r@.len() == i,
                forall|j: int|
                    0 <= j < i ==> (#[trigger] r@[j]).0@ == self.ops@[j].name@ && r@[j].1@
                        == self.ops@[j].stats@,
            decreases self.ops@.len() - i,
        {
            r.push((self.ops[i].name.clone(), self.ops[i].stats));
            i = i + 1;
        }
        r
    }

    /// Clears every ring and every cumulative statistic.
    pub fn reset_measurements(&mut self)
        ensures
            final(self).wf(),
            final(self).latency_threshold_ms == old(self).latency_threshold_ms,
            forall|n: Seq<char>| !final(self).has_op(n),
            forall|n: Seq<char>| #[trigger] final(self).op_ring(n) == Seq::<u64>::empty(),
            forall|n: Seq<char>| #[trigger] final(self).op_stats(n) == empty_stats(),
    {
        self.ops = Vec::new();
    }
}

/// The nearest-rank index for percentile `pct` over `n` samples:
/// `pct * n / 100`, clamped to `n - 1`.
pub open spec fn rank_index(pct: int, n: int) -> int {
    let i = pct * n / 100;
    if i >= n {
        n - 1
    } else {
        i
    }
}

/// An ascending copy of a sample vector.
#[verifier::loop_isolation(false)]
fn sorted_copy(v: &Vec<u64>) -> (r: Vec<u64>)
    ensures
        r@ == sorted_view(v@),
        r@.len() == v@.len(),
{
    broadcast use vstd::seq_lib::group_to_multiset_ensures;
    broadcast use vstd::seq_lib::to_multiset_insert;

    let ghost cmp = |a: u64, b: u64| le(a, b);
    let mut r: Vec<u64> = Vec::new();
    let mut i: usize = 0;
    while i < v.len()
        invariant
            0 <= i <= v@.len(),
            r@.len() == i,
            sorted_by(r@, cmp),
            r@.to_multiset() == v@.take(i as int).to_multiset(),
        decreases v@.len() - i,
    {
        let x: u64 = v[i];
        let mut j: usize = 0;
        while j < r.len() && r[j] <= x
            invariant
                0 <= j <= r@.len(),
                forall|k: int| 0 <= k < j ==> r@[k] <= x,
                sorted_by(r@, cmp),
            decreases r@.len() - j,
        {
            j = j + 1;
        }
        let ghost r_before = r@;
        r.insert(j, x);
        proof {
            let ji = j as int;
            assert(r@ =~= r_before.insert(ji, x));
            r_before.insert_ensures(ji, x);
            assert forall|a: int, b: int| 0 <= a < b < r@.len() implies cmp(r@[a], r@[b]) by {
                if b < ji {
                    assert(r_before.insert(ji, x)[a] == r_before[a]);
                    assert(r_before.insert(ji, x)[b] == r_before[b]);
                    assert(cmp(r_before[a], r_before[b]));
                } else if a > ji {
                    let ai = a - 1;
                    let bi = b - 1;
                    assert(r_before.insert(ji, x)[ai + 1] == r_before[ai]);
                    assert(r_before.insert(ji, x)[bi + 1] == r_before[bi]);
                    assert(cmp(r_before[ai], r_before[bi]));
                } else if a < ji && b == ji {
                    assert(r_before.insert(ji, x)[a] == r_before[a]);
                    assert(r_before.insert(ji, x)[ji] == x);
                    assert(r_before[a] <= x);
                } else if a == ji && b > ji {
                    let bi = b - 1;
                    assert(r_before.insert(ji, x)[ji] == x);
                    assert(r_before.insert(ji, x)[bi + 1] == r_before[bi]);
                    if bi > ji {
                        assert(cmp(r_before[ji], r_before[bi]));
                    }
                    assert(r_before[ji] > x);
                } else {
                    assert(a < ji && b > ji);
                    let bi = b - 1;
                    assert(r_before.insert(ji, x)[a] == r_before[a]);
                    assert(r_before.insert(ji, x)[bi + 1] == r_before[bi]);
                    assert(r_before[a] <= x);
                    if bi > ji {
                        assert(cmp(r_before[ji], r_before[bi]));
                    }
                    assert(r_before[ji] > x);
                }
            }
            assert(r@.to_multiset() == r_before.insert(ji, x).to_multiset());
            assert(v@.take(i as int + 1) =~= v@.take(i as int).push(x));
        }
        i = i + 1;
    }
    proof {
        assert(v@.take(v@.len() as int) =~= v@);
        assert(total_ordering(cmp)) by {
            assert forall|a: u64| #[trigger] cmp(a, a) by {}
            assert forall|a: u64, b: u64| #[trigger] cmp(a, b) && cmp(b, a) implies a == b by {}
            assert forall|a: u64, b: u64, c: u64|
                #![trigger cmp(a, b), cmp(b, c)]
                cmp(a, b) && cmp(b, c) implies cmp(a, c) by {}
            assert forall|a: u64, b: u64| #[trigger] cmp(a, b) || cmp(b, a) by {}
        }
        v@.lemma_sort_by_ensures(cmp);
        lemma_sorted_unique(r@, v@.sort_by(cmp), cmp);
        assert(r@ =~= sorted_view(v@));
    }
    r
}

/// The most recent [`RING_CAPACITY`] entries of a sequence — what a ring
/// retains of it.
pub open spec fn retained(s: Seq<u64>) -> Seq<u64> {
    if s.len() <= RING_CAPACITY as int {
        s
    } else {
        s.subrange(s.len() - RING_CAPACITY as int, s.len() as int)
    }
}

/// [`push_evict`] folded over a whole measurement sequence.
pub open spec fn feed_ring(s: Seq<u64>, vs: Seq<u64>) -> Seq<u64>
    decreases vs.len(),
{
    if vs.len() == 0 {
        s
    } else {
        push_evict(feed_ring(s, vs.drop_last()), vs.last())
    }
}

/// A ring that starts within capacity always holds exactly the retained
/// tail of everything fed so far.
pub proof fn lemma_ring_feed(s: Seq<u64>, vs: Seq<u64>)
    requires
        s.len() <= RING_CAPACITY as int,
    ensures
        feed_ring(s, vs) == retained(s + vs),
        feed_ring(s, vs).len() <= RING_CAPACITY as int,
    decreases vs.len(),
{
    if vs.len() == 0 {
        assert(s + vs =~= s);
    } else {
        let vs0 = vs.drop_last();
        lemma_ring_feed(s, vs0);
        assert(s + vs =~= (s + vs0).push(vs.last()));
        if (s + vs0).len() < RING_CAPACITY as int {
            assert(feed_ring(s, vs) =~= retained(s + vs));
        } else {
            assert(feed_ring(s, vs) =~= retained(s + vs));
        }
    }
}

/// Ring-bound law: after feeding an operation more than
/// [`RING_CAPACITY`] measurements, the ring holds exactly the most
/// recent [`RING_CAPACITY`] of them, in arrival order.
pub proof fn lemma_ring_bound(s: Seq<u64>, vs: Seq<u64>)
    requires
        s.len() <= RING_CAPACITY as int,
        vs.len() >= RING_CAPACITY as int,
    ensures
        feed_ring(s, vs).len() == RING_CAPACITY as int,
        feed_ring(s, vs) == vs.subrange(vs.len() - RING_CAPACITY as int, vs.len() as int),
{
    lemma_ring_feed(s, vs);
    assert(retained(s + vs) =~= vs.subrange(vs.len() - RING_CAPACITY as int, vs.len() as int));
}

/// Running-average law: folding measurements L1..Ln into the cumulative
/// statistic counts exactly n and sums exactly L1+..+Ln, so the derived
/// average `sum / count` is the arithmetic mean of the whole sequence.
pub proof fn lemma_running_average(vs: Seq<u64>)
    ensures
        fold_stats(vs).count == vs.len(),
        fold_stats(vs).sum == seq_sum(vs),
    decreases vs.len(),
{
    if vs.len() > 0 {
        lemma_running_average(vs.drop_last());
    }
}

} // verus!
