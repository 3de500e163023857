//! The slippage gate: expected versus realized fill price, in basis
//! points, with a hot-reloadable limit.

use vstd::prelude::*;
use vstd::string::StringExecFns;
use crate::config::ExecutionConfig;
use crate::errors::PipelineError;
use crate::units::{BPS_PER_UNIT, abs_diff, dist, prod_exceeds};

verus! {

/// Vetoes an execution whose realized price deviates from the expected
/// price by more than the configured number of basis points.
pub struct SlippageController {
    pub max_slippage_bps: u64,
}

impl SlippageController {
    pub fn new(config: &ExecutionConfig) -> (r: SlippageController)
        ensures
            r.max_slippage_bps == config.max_slippage_bps,
    {
        SlippageController { max_slippage_bps: config.max_slippage_bps }
    }

    /// The slippage rule in product form: the deviation
    /// `|actual - expected| / expected`, in basis points, stays within
    /// the limit exactly when
    /// `|actual - expected| * BPS_PER_UNIT <= max_slippage_bps * expected`.
    /// A deviation of exactly the limit passes; only strictly more is
    /// rejected.
    pub open spec fn within_limit(&self, expected: int, actual: int) -> bool {
        dist(actual, expected) * BPS_PER_UNIT as int <= self.max_slippage_bps as int * expected
    }

    pub fn check_slippage(&self, expected_price: u64, actual_price: u64) -> (r: Result<
        (),
        PipelineError,
    >)
        ensures
            r is Ok <==> self.within_limit(expected_price as int, actual_price as int),
            r matches Err(e) ==> e is CheckFailed && e.message_view() == "Slippage exceeds limit"@,
    {
        let deviation: u64 = abs_diff(actual_price, expected_price);
        if prod_exceeds(deviation, BPS_PER_UNIT, self.max_slippage_bps, expected_price) {
            return Err(PipelineError::CheckFailed(String::from_str("Slippage exceeds limit")));
        }
        Ok(())
    }

    /// Hot-reload of the limit. A zero limit is rejected and leaves the
    /// prior limit active.
    pub fn update_slippage_limit(&mut self, new_limit_bps: u64) -> (r: Result<(), PipelineError>)
        ensures
            new_limit_bps > 0 ==> r is Ok && final(self).max_slippage_bps == new_limit_bps,
            new_limit_bps == 0 ==> (r matches Err(e) && e is LimitUpdateRejected)
                && final(self).max_slippage_bps == old(self).max_slippage_bps,
    {
        if new_limit_bps == 0 {
            return Err(PipelineError::LimitUpdateRejected);
        }
        self.max_slippage_bps = new_limit_bps;
        Ok(())
    }
}

} // verus!
