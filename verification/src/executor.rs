//! The order executor: final validity check, dispatch hand-off, and
//! outcome recording.
//!
//! An order walks `Received -> Validated -> Dispatched -> Succeeded |
//! Failed`. [`OrderExecutor::begin_order`] is the `Received ->
//! Validated` step: it either admits the order or refuses it with
//! `InvalidOrder`, in which case nothing is dispatched. The dispatch
//! itself is the broker collaborator's; its result comes back through
//! [`OrderExecutor::record_outcome`], which builds the immutable
//! [`ExecutionOutcome`], folds it into the symbol's success/failure
//! counters and latency sum, and on failure appends the error to a
//! bounded log.

use vstd::prelude::*;
use vstd::string::StringExecFns;
use crate::config::ExecutionConfig;
use crate::errors::PipelineError;
use crate::signal::SignalKind;

verus! {

/// How many failure messages the error log retains, oldest evicted
/// first.
pub const ERROR_LOG_CAPACITY: usize = 100;

/// Aggregated outcome statistics for one symbol. The average latency is
/// derived as `latency_sum / latency_count`, which after n successful
/// executions is exactly the mean of their latencies.
#[derive(Clone, Copy, Debug)]
pub struct SymbolStats {
    pub success_count: u64,
    pub failure_count: u64,
    pub latency_count: u64,
    pub latency_sum: u128,
}

/// Mathematical image of a [`SymbolStats`].
pub struct SymbolStatsModel {
    pub success: int,
    pub failure: int,
    pub latency_count: int,
    pub latency_sum: int,
}

pub open spec fn empty_symbol_stats() -> SymbolStatsModel {
    SymbolStatsModel { success: 0, failure: 0, latency_count: 0, latency_sum: 0 }
}

/// What one recorded outcome does to a symbol's statistics: a success
/// bumps the success counter and folds the latency into the running
/// mean's numerator and denominator; a failure bumps only the failure
/// counter.
pub open spec fn outcome_update(m: SymbolStatsModel, success: bool, latency: int) -> SymbolStatsModel {
    if success {
        SymbolStatsModel {
            success: m.success + 1,
            failure: m.failure,
            latency_count: m.latency_count + 1,
            latency_sum: m.latency_sum + latency,
        }
    } else {
        SymbolStatsModel {
            success: m.success,
            failure: m.failure + 1,
            latency_count: m.latency_count,
            latency_sum: m.latency_sum,
        }
    }
}

impl View for SymbolStats {
    type V = SymbolStatsModel;

    open spec fn view(&self) -> SymbolStatsModel {
        SymbolStatsModel {
            success: self.success_count as int,
            failure: self.failure_count as int,
            latency_count: self.latency_count as int,
            latency_sum: self.latency_sum as int,
        }
    }
}

impl SymbolStats {
    pub open spec fn wf(&self) -> bool {
        self.latency_sum as int <= self.latency_count as int * u64::MAX as int
    }

    pub fn new() -> (r: SymbolStats)
        ensures
            r@ == empty_symbol_stats(),
            r.wf(),
    {
        SymbolStats { success_count: 0, failure_count: 0, latency_count: 0, latency_sum: 0 }
    }

    fn fold_outcome(&mut self, success: bool, latency_ms: u64)
        requires
            old(self).wf(),
            old(self).success_count < u64::MAX,
            old(self).failure_count < u64::MAX,
            old(self).latency_count < u64::MAX,
        ensures
            final(self)@ == outcome_update(old(self)@, success, latency_ms as int),
            final(self).wf(),
    {
        if success {
            proof {
                let s = old(self).latency_sum as int;
                let c = old(self).latency_count as int;
                assert(s + latency_ms as int <= (c + 1) * u64::MAX as int) by (nonlinear_arith)
                    requires
                        s <= c * u64::MAX as int,
                        latency_ms <= u64::MAX,
                ;
            }
            self.success_count = self.success_count + 1;
            self.latency_count = self.latency_count + 1;
            self.latency_sum = self.latency_sum + (latency_ms as u128);
        } else {
            self.failure_count = self.failure_count + 1;
        }
    }
}

/// One symbol's entry in the executor's statistics.
pub struct SymbolEntry {
    pub symbol: String,
    pub stats: SymbolStats,
}

/// The record of one executor invocation: created once when the outcome
/// is known, never mutated afterward.
pub struct ExecutionOutcome {
    pub symbol: String,
    pub kind: SignalKind,
    pub size: u64,
    pub latency_ms: u64,
    pub success: bool,
    pub error: Option<String>,
    pub timestamp: i64,
}

/// What appending a message does to the bounded error log.
pub open spec fn log_append(log: Seq<Seq<char>>, msg: Seq<char>) -> Seq<Seq<char>> {
    if log.len() < ERROR_LOG_CAPACITY as int {
        log.push(msg)
    } else {
        log.push(msg).drop_first()
    }
}

pub struct OrderExecutor {
    pub max_order_size: u64,
    pub stats: Vec<SymbolEntry>,
    pub error_log: Vec<String>,
}

/// Whether `s` holds an entry for `symbol`.
pub open spec fn stats_has(s: Seq<SymbolEntry>, symbol: Seq<char>) -> bool {
    exists|i: int| 0 <= i < s.len() && s[i].symbol@ == symbol
}

/// Index of the entry for `symbol`; with unique symbols there is exactly
/// one.
pub open spec fn stats_index(s: Seq<SymbolEntry>, symbol: Seq<char>) -> int {
    choose|i: int| 0 <= i < s.len() && s[i].symbol@ == symbol
}

impl OrderExecutor {
    pub open spec fn wf(&self) -> bool {
        &&& forall|i: int, j: int|
            0 <= i < j < self.stats@.len() ==> self.stats@[i].symbol@ != self.stats@[j].symbol@
        &&& forall|i: int| 0 <= i < self.stats@.len() ==> (#[trigger] self.stats@[i]).stats.wf()
        &&& self.error_log@.len() <= ERROR_LOG_CAPACITY as int
    }

    pub open spec fn has_symbol(&self, symbol: Seq<char>) -> bool {
        stats_has(self.stats@, symbol)
    }

    pub open spec fn symbol_index(&self, symbol: Seq<char>) -> int {
        stats_index(self.stats@, symbol)
    }

    /// The symbol's statistics; an unseen symbol reads empty.
    pub open spec fn symbol_stats(&self, symbol: Seq<char>) -> SymbolStatsModel {
        if self.has_symbol(symbol) {
            self.stats@[self.symbol_index(symbol)].stats@
        } else {
            empty_symbol_stats()
        }
    }

    /// The error log's messages, oldest first.
    pub open spec fn log_entries(&self) -> Seq<Seq<char>> {
        self.error_log@.map_values(|s: String| s@)
    }

    pub fn new(config: &ExecutionConfig) -> (r: OrderExecutor)
        ensures
            r.wf(),
            r.max_order_size == config.max_order_size,
            forall|n: Seq<char>| !r.has_symbol(n),
            forall|n: Seq<char>| #[trigger] r.symbol_stats(n) == empty_symbol_stats(),
            r.log_entries() == Seq::<Seq<char>>::empty(),
    {
        let r = OrderExecutor {
            max_order_size: config.max_order_size,
            stats: Vec::new(),
            error_log: Vec::new(),
        };
        proof {
            assert(r.log_entries() =~= Seq::<Seq<char>>::empty());
        }
        r
    }

    /// Semantic validity of an order: a recognized direction, a positive
    /// size within the configured maximum, and a non-empty symbol.
    pub open spec fn order_valid(&self, size: int, symbol: Seq<char>) -> bool {
        &&& size > 0
        &&& symbol.len() > 0
        &&& size <= self.max_order_size as int
    }

    /// The final validity check before dispatch. The direction check is
    /// exhaustive over the two recognized kinds.
    pub fn validate_order(&self, kind: SignalKind, size: u64, symbol: &String) -> (r: bool)
        ensures
            r == self.order_valid(size as int, symbol@),
    {
        let kind_ok: bool = match kind {
            SignalKind::Buy => true,
            SignalKind::Sell => true,
        };
        kind_ok && size > 0 && !symbol.as_str().is_empty() && size <= self.max_order_size
    }

    /// `Received -> Validated`: admits the order or refuses it with
    /// `InvalidOrder`; on refusal no dispatch is attempted.
    pub fn begin_order(&self, kind: SignalKind, size: u64, symbol: &String) -> (r: Result<
        (),
        PipelineError,
    >)
        ensures
            r is Ok <==> self.order_valid(size as int, symbol@),
            r matches Err(e) ==> e is InvalidOrder,
    {
        if self.validate_order(kind, size, symbol) {
            Ok(())
        } else {
            Err(PipelineError::InvalidOrder)
        }
    }

    /// Index of the symbol's entry, when there is one.
    fn find_symbol(&self, symbol: &String) -> (r: Option<usize>)
        requires
            self.wf(),
        ensures
            match r {
                Some(i) => i < self.stats@.len() && self.stats@[i as int].symbol@ == symbol@
                    && self.has_symbol(symbol@) && self.symbol_index(symbol@) == i,
                None => !self.has_symbol(symbol@),
            },
    {
        let mut i: usize = 0;
        while i < self.stats.len()
            invariant
                self.wf(),
                0 <= i <= self.stats@.len(),
                forall|j: int| 0 <= j < i ==> self.stats@[j].symbol@ != symbol@,
            decreases self.stats@.len() - i,
        {
            if self.stats[i].symbol == *symbol {
                proof {
                    assert(self.has_symbol(symbol@));
                    let k = self.symbol_index(symbol@);
                    assert(self.stats@[k].symbol@ == symbol@);
                    if k != i {
                        assert(self.stats@[k].symbol@ != self.stats@[i as int].symbol@);
                    }
                }
                return Some(i);
            }
            i = i + 1;
        }
        None
    }

    /// Appends a failure message, evicting the oldest entry when the log
    /// is full.
    fn push_error(&mut self, msg: String)
        requires
            old(self).error_log@.len() <= ERROR_LOG_CAPACITY as int,
        ensures
            final(self).log_entries() == log_append(old(self).log_entries(), msg@),
            final(self).error_log@.len() <= ERROR_LOG_CAPACITY as int,
            final(self).stats == old(self).stats,
            final(self).max_order_size == old(self).max_order_size,
    {
        self.error_log.push(msg);
        if self.error_log.len() > ERROR_LOG_CAPACITY {
            self.error_log.remove(0);
            proof {
                assert(self.error_log@ =~= old(self).error_log@.push(msg).drop_first());
                assert(self.log_entries() =~= log_append(old(self).log_entries(), msg@));
            }
        } else {
            proof {
                assert(self.log_entries() =~= log_append(old(self).log_entries(), msg@));
            }
        }
    }

    /// `Dispatched -> Succeeded | Failed`: persists the outcome of one
    /// dispatch. The symbol's counters and latency statistics absorb the
    /// outcome; a failure additionally appends its message to the
    /// bounded error log. Every other symbol is untouched.
    pub fn record_outcome(
        &mut self,
        symbol: &String,
        kind: SignalKind,
        size: u64,
        success: bool,
        error: Option<String>,
        latency_ms: u64,
        timestamp: i64,
    ) -> (o: ExecutionOutcome)
        requires
            old(self).wf(),
            old(self).symbol_stats(symbol@).success < u64::MAX as int,
            old(self).symbol_stats(symbol@).failure < u64::MAX as int,
            old(self).symbol_stats(symbol@).latency_count < u64::MAX as int,
        ensures
            final(self).wf(),
            final(self).max_order_size == old(self).max_order_size,
            o.symbol@ == symbol@,
            o.kind == kind,
            o.size == size,
            o.latency_ms == latency_ms,
            o.success == success,
            o.error == error,
            o.timestamp == timestamp,
            final(self).symbol_stats(symbol@) == outcome_update(
                old(self).symbol_stats(symbol@),
                success,
                latency_ms as int,
            ),
            forall|n: Seq<char>|
                n != symbol@ ==> #[trigger] final(self).symbol_stats(n) == old(self).symbol_stats(n),
            forall|n: Seq<char>|
                #[trigger] final(self).has_symbol(n) == (old(self).has_symbol(n) || n == symbol@),
            success ==> final(self).log_entries() == old(self).log_entries(),
            !success ==> final(self).log_entries() == log_append(
                old(self).log_entries(),
                error_message_view(&error),
            ),
    {
        let ghost prior = *self;
        if !success {
            let msg: String = match &error {
                Some(m) => m.clone(),
                None => String::from_str("Order execution failed"),
            };
            self.push_error(msg);
        }
        proof {
            assert(self.wf());
        }
        match self.find_symbol(symbol) {
            Some(i) => {
                let mut entry = self.stats.remove(i);
                entry.stats.fold_outcome(success, latency_ms);
                self.stats.insert(i, entry);
                proof {
                    assert(self.stats@ =~= prior.stats@.update(i as int, entry));
                    self.lemma_stable_stats(prior, i as int, symbol@);
                }
            },
            None => {
                let mut stats = SymbolStats::new();
                stats.fold_outcome(success, latency_ms);
                self.stats.push(SymbolEntry { symbol: symbol.clone(), stats });
                proof {
                    self.lemma_appended_stats(prior, symbol@);
                }
            },
        }
        ExecutionOutcome {
            symbol: symbol.clone(),
            kind,
            size,
            latency_ms,
            success,
            error,
            timestamp,
        }
    }

    /// After updating the entry at `i` in place (same symbol), every
    /// lookup resolves as before.
    proof fn lemma_stable_stats(&self, prior: OrderExecutor, i: int, symbol: Seq<char>)
        requires
            prior.wf(),
            0 <= i < prior.stats@.len(),
            prior.stats@[i].symbol@ == symbol,
            self.stats@.len() == prior.stats@.len(),
            self.stats@[i].symbol@ == symbol,
            forall|j: int| 0 <= j < prior.stats@.len() && j != i ==> self.stats@[j] == prior.stats@[j],
        ensures
            forall|n: Seq<char>| #[trigger] self.has_symbol(n) == prior.has_symbol(n),
            self.symbol_index(symbol) == i,
            prior.symbol_index(symbol) == i,
            forall|n: Seq<char>|
                n != symbol ==> #[trigger] self.symbol_stats(n) == prior.symbol_stats(n),
            self.symbol_stats(symbol) == self.stats@[i].stats@,
            prior.symbol_stats(symbol) == prior.stats@[i].stats@,
            forall|a: int, b: int|
                0 <= a < b < self.stats@.len() ==> self.stats@[a].symbol@ != self.stats@[b].symbol@,
    {
        assert(forall|j: int|
            0 <= j < prior.stats@.len() ==> #[trigger] self.stats@[j].symbol@
                == prior.stats@[j].symbol@);
        assert forall|n: Seq<char>| #[trigger] self.has_symbol(n) == prior.has_symbol(n) by {
            if prior.has_symbol(n) {
                let j = prior.symbol_index(n);
                assert(self.stats@[j].symbol@ == n);
            }
            if self.has_symbol(n) {
                let j = self.symbol_index(n);
                assert(prior.stats@[j].symbol@ == n);
            }
        }
        assert(self.has_symbol(symbol));
        let k = self.symbol_index(symbol);
        if k != i {
            assert(prior.stats@[k].symbol@ != prior.stats@[i].symbol@);
        }
        let k2 = prior.symbol_index(symbol);
        if k2 != i {
            assert(prior.stats@[k2].symbol@ != prior.stats@[i].symbol@);
        }
        assert forall|n: Seq<char>|
            n != symbol && prior.has_symbol(n) implies self.symbol_index(n) == prior.symbol_index(n)
            && self.stats@[self.symbol_index(n)] == prior.stats@[prior.symbol_index(n)] by {
            let j = prior.symbol_index(n);
            assert(prior.stats@[j].symbol@ == n);
            assert(self.stats@[j].symbol@ == n);
            let j2 = self.symbol_index(n);
            assert(self.stats@[j2].symbol@ == n);
            if j2 != j {
                assert(prior.stats@[j2].symbol@ != prior.stats@[j].symbol@);
            }
            assert(j != i);
        }
    }

    /// After appending an entry with a fresh symbol, the new symbol
    /// resolves to the appended entry and every other lookup resolves as
    /// before.
    proof fn lemma_appended_stats(&self, prior: OrderExecutor, symbol: Seq<char>)
        requires
            prior.wf(),
            !prior.has_symbol(symbol),
            self.stats@.len() == prior.stats@.len() + 1,
            self.stats@[self.stats@.len() - 1].symbol@ == symbol,
            forall|j: int| 0 <= j < prior.stats@.len() ==> self.stats@[j] == prior.stats@[j],
        ensures
            forall|a: int, b: int|
                0 <= a < b < self.stats@.len() ==> self.stats@[a].symbol@ != self.stats@[b].symbol@,
            forall|n: Seq<char>|
                #[trigger] self.has_symbol(n) == (prior.has_symbol(n) || n == symbol),
            self.symbol_index(symbol) == self.stats@.len() - 1,
            forall|n: Seq<char>|
                n != symbol ==> #[trigger] self.symbol_stats(n) == prior.symbol_stats(n),
            self.symbol_stats(symbol) == self.stats@[self.stats@.len() - 1].stats@,
    {
        let m = self.stats@.len() - 1;
        assert forall|a: int, b: int|
            0 <= a < b < self.stats@.len() implies self.stats@[a].symbol@
            != self.stats@[b].symbol@ by {
            if b < m {
            } else {
                assert(b == m);
                if self.stats@[a].symbol@ == symbol {
                    assert(prior.stats@[a].symbol@ == symbol);
                    assert(prior.has_symbol(symbol));
                }
            }
        }
        assert forall|n: Seq<char>|
            #[trigger] self.has_symbol(n) == (prior.has_symbol(n) || n == symbol) by {
            if prior.has_symbol(n) {
                let j = prior.symbol_index(n);
                assert(self.stats@[j].symbol@ == n);
            }
            if n == symbol {
                assert(self.stats@[m].symbol@ == n);
            }
            if self.has_symbol(n) && n != symbol {
                let j = self.symbol_index(n);
                assert(j != m);
                assert(prior.stats@[j].symbol@ == n);
            }
        }
        let k = self.symbol_index(symbol);
        if k != m {
            assert(prior.stats@[k].symbol@ == symbol);
            assert(prior.has_symbol(symbol));
        }
        assert forall|n: Seq<char>|
            n != symbol && prior.has_symbol(n) implies self.symbol_index(n)
            == prior.symbol_index(n) && self.stats@[self.symbol_index(n)]
            == prior.stats@[prior.symbol_index(n)] by {
            let j = prior.symbol_index(n);
            assert(prior.stats@[j].symbol@ == n);
            assert(self.stats@[j].symbol@ == n);
            let j2 = self.symbol_index(n);
            assert(self.stats@[j2].symbol@ == n);
            if j2 != j {
                assert(self.stats@[j2].symbol@ != self.stats@[j].symbol@);
            }
            assert(j2 < m);
        }
    }

    /// The symbol's aggregated statistics; `None` when it was never
    /// executed.
    pub fn get_execution_stats(&self, symbol: &String) -> (r: Option<SymbolStats>)
        requires
            self.wf(),
        ensures
            match r {
                Some(s) => self.has_symbol(symbol@) && s@ == self.symbol_stats(symbol@),
                None => !self.has_symbol(symbol@),
            },
    {
        match self.find_symbol(symbol) {
            Some(i) => Some(self.stats[i].stats),
            None => None,
        }
    }

    /// A copy of every symbol's statistics, in first-seen order.
    pub fn get_all_execution_stats(&self) -> (r: Vec<SymbolEntry>)
        requires
            self.wf(),
        ensures
            r@.len() == self.stats@.len(),
            forall|i: int|
                0 <= i < r@.len() ==> (#[trigger] r@[i]).symbol@ == self.stats@[i].symbol@
                    && r@[i].stats == self.stats@[i].stats,
    {
        let mut r: Vec<SymbolEntry> = Vec::new();
        let mut i: usize = 0;
        while i < self.stats.len()
            invariant
                self.wf(),
                0 <= i <= self.stats@.len(),
                r@.len() == i,
                forall|j: int|
                    0 <= j < i ==> (#[trigger] r@[j]).symbol@ == self.stats@[j].symbol@
                        && r@[j].stats == self.stats@[j].stats,
            decreases self.stats@.len() - i,
        {
            let entry = SymbolEntry {
                symbol: self.stats[i].symbol.clone(),
                stats: self.stats[i].stats,
            };
            r.push(entry);
            i = i + 1;
        }
        r
    }
}

/// The message a failed dispatch leaves in the error log.
pub open spec fn error_message_view(error: &Option<String>) -> Seq<char> {
    match error {
        Some(m) => m@,
        None => "Order execution failed"@,
    }
}

} // verus!
