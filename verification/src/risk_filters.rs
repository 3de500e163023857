//! The pre-execution risk gate: order size and recorded daily loss, with
//! hot-reloadable limits.

use vstd::prelude::*;
use vstd::string::StringExecFns;
use crate::config::ExecutionConfig;
use crate::errors::PipelineError;
use crate::store::StoreSnapshot;

verus! {

/// Vetoes an execution whose size exceeds the configured maximum order
/// size, or whose symbol's recorded daily loss has reached the
/// configured maximum fraction.
pub struct RiskFilters {
    pub max_daily_loss: u64,
    pub max_order_size: u64,
}

impl RiskFilters {
    pub fn new(config: &ExecutionConfig) -> (r: RiskFilters)
        ensures
            r.max_daily_loss == config.max_daily_loss,
            r.max_order_size == config.max_order_size,
    {
        RiskFilters { max_daily_loss: config.max_daily_loss, max_order_size: config.max_order_size }
    }

    pub open spec fn size_ok(&self, size: int) -> bool {
        size <= self.max_order_size as int
    }

    /// The daily-loss gate: the recorded loss is known and still below
    /// the maximum. A failed store read never passes.
    pub open spec fn loss_ok(&self, snap: &StoreSnapshot) -> bool {
        snap.daily_loss matches Some(l) && l < self.max_daily_loss
    }

    pub open spec fn passes(&self, size: int, snap: &StoreSnapshot) -> bool {
        self.size_ok(size) && self.loss_ok(snap)
    }

    pub open spec fn err_view(&self, size: int, snap: &StoreSnapshot) -> Seq<char> {
        if !self.size_ok(size) {
            "Order size exceeds limit"@
        } else if snap.daily_loss is None {
            "State store unavailable"@
        } else {
            "Daily loss exceeds limit"@
        }
    }

    pub fn apply_filters(&self, size: u64, snap: &StoreSnapshot) -> (r: Result<(), PipelineError>)
        ensures
            r is Ok <==> self.passes(size as int, snap),
            r matches Err(e) ==> e.message_view() == self.err_view(size as int, snap),
            !self.size_ok(size as int) ==> (r matches Err(e) && e is CheckFailed),
            self.size_ok(size as int) && snap.daily_loss is None ==> (r matches Err(e)
                && e is StoreUnavailable),
            self.size_ok(size as int) && snap.daily_loss is Some && !self.loss_ok(snap) ==> (
            r matches Err(e) && e is CheckFailed),
    {
        if size > self.max_order_size {
            return Err(PipelineError::CheckFailed(String::from_str("Order size exceeds limit")));
        }
        let daily_loss: u64 = match snap.daily_loss {
            Some(l) => l,
            None => {
                return Err(PipelineError::StoreUnavailable);
            },
        };
        if daily_loss >= self.max_daily_loss {
            return Err(PipelineError::CheckFailed(String::from_str("Daily loss exceeds limit")));
        }
        Ok(())
    }

    /// Hot-reload of both limits at once. A zero value for either is
    /// rejected and leaves both prior limits active.
    pub fn update_risk_limits(&mut self, max_daily_loss: u64, max_order_size: u64) -> (r: Result<
        (),
        PipelineError,
    >)
        ensures
            max_daily_loss > 0 && max_order_size > 0 ==> r is Ok && final(self).max_daily_loss
                == max_daily_loss && final(self).max_order_size == max_order_size,
            max_daily_loss == 0 || max_order_size == 0 ==> (r matches Err(e)
                && e is LimitUpdateRejected) && *final(self) == *old(self),
    {
        if max_daily_loss == 0 || max_order_size == 0 {
            return Err(PipelineError::LimitUpdateRejected);
        }
        self.max_daily_loss = max_daily_loss;
        self.max_order_size = max_order_size;
        Ok(())
    }
}

} // verus!
