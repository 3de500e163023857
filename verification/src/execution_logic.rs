//! The execution pipeline's per-signal step.
//!
//! The enclosing consumption loop — receiving accepted signals, timing
//! the dispatch, calling the broker and persisting metrics — belongs to
//! the runtime around this crate. The decisions it drives are here: the
//! pre-dispatch gates in their fixed order, and the outcome recording on
//! the executor.

use vstd::prelude::*;
use crate::config::ExecutionConfig;
use crate::errors::PipelineError;
use crate::executor::OrderExecutor;
use crate::risk_filters::RiskFilters;
use crate::signal::Signal;
use crate::slippage::SlippageController;
use crate::store::StoreSnapshot;

verus! {

/// Expected fill price of a signal: an absent one reads zero, on which
/// the slippage gate is vacuous.
pub open spec fn expected_price_of(sig: &Signal) -> int {
    match sig.expected_price {
        Some(p) => p as int,
        None => 0,
    }
}

/// Binds the pre-dispatch gates and the executor for one consumption
/// loop.
pub struct ExecutionLogic {
    pub order_executor: OrderExecutor,
    pub slippage_controller: SlippageController,
    pub risk_filters: RiskFilters,
}

impl ExecutionLogic {
    pub fn new(config: &ExecutionConfig) -> (r: ExecutionLogic)
        ensures
            r.order_executor.wf(),
            r.order_executor.max_order_size == config.max_order_size,
            forall|n: Seq<char>| !r.order_executor.has_symbol(n),
            r.order_executor.log_entries() == Seq::<Seq<char>>::empty(),
            r.slippage_controller.max_slippage_bps == config.max_slippage_bps,
            r.risk_filters.max_daily_loss == config.max_daily_loss,
            r.risk_filters.max_order_size == config.max_order_size,
    {
        ExecutionLogic {
            order_executor: OrderExecutor::new(config),
            slippage_controller: SlippageController::new(config),
            risk_filters: RiskFilters::new(config),
        }
    }

    /// Every gate that must admit a signal before dispatch, in order:
    /// the risk filters, then the slippage gate over the expected price
    /// (no fill price exists yet, so it is compared with itself), then
    /// the executor's final validity check.
    pub open spec fn admits(&self, sig: &Signal, snap: &StoreSnapshot) -> bool {
        &&& self.risk_filters.passes(sig.size as int, snap)
        &&& self.slippage_controller.within_limit(expected_price_of(sig), expected_price_of(sig))
        &&& self.order_executor.order_valid(sig.size as int, sig.symbol@)
    }

    /// The pre-dispatch gates of one consumption-loop step. The first
    /// gate to veto decides the error; a vetoed signal is never handed
    /// to the broker.
    pub fn pre_trade_checks(&self, sig: &Signal, snap: &StoreSnapshot) -> (r: Result<
        (),
        PipelineError,
    >)
        ensures
            r is Ok <==> self.admits(sig, snap),
            !self.risk_filters.passes(sig.size as int, snap) ==> (r matches Err(e)
                && e.message_view() == self.risk_filters.err_view(sig.size as int, snap)),
            self.risk_filters.passes(sig.size as int, snap)
                && !self.slippage_controller.within_limit(
                expected_price_of(sig),
                expected_price_of(sig),
            ) ==> (r matches Err(e) && e is CheckFailed),
            self.risk_filters.passes(sig.size as int, snap) && self.slippage_controller.within_limit(
                expected_price_of(sig),
                expected_price_of(sig),
            ) && !self.order_executor.order_valid(sig.size as int, sig.symbol@) ==> (r matches Err(
                e,
            ) && e is InvalidOrder),
    {
        self.risk_filters.apply_filters(sig.size, snap)?;
        let expected: u64 = match sig.expected_price {
            Some(p) => p,
            None => 0,
        };
        self.slippage_controller.check_slippage(expected, expected)?;
        self.order_executor.begin_order(sig.kind, sig.size, &sig.symbol)?;
        Ok(())
    }
}

} // verus!
