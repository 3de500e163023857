//! Market-condition checks: time drift against the market clock, and
//! liquidity against market depth.

use vstd::prelude::*;
use vstd::string::StringExecFns;
use crate::config::ValidationConfig;
use crate::errors::PipelineError;
use crate::signal::Signal;
use crate::store::StoreSnapshot;
use crate::units::{SCALE, abs_gap, dist, prod_exceeds};

verus! {

/// Rejects a signal whose timestamp drifts too far from the last known
/// market timestamp for its symbol, or whose symbol has no known market
/// timestamp at all.
pub struct TimeSensitivity {
    pub max_time_drift: u64,
}

impl TimeSensitivity {
    pub fn new(config: &ValidationConfig) -> (r: TimeSensitivity)
        ensures
            r.max_time_drift == config.max_time_drift,
    {
        TimeSensitivity { max_time_drift: config.max_time_drift }
    }

    /// A market timestamp of `0` means the symbol is unknown; otherwise
    /// the signal may drift at most `max_time_drift` seconds either way.
    pub open spec fn passes(&self, sig: &Signal, snap: &StoreSnapshot) -> bool {
        snap.market_timestamp != 0 && dist(sig.timestamp as int, snap.market_timestamp as int)
            <= self.max_time_drift as int
    }

    pub open spec fn err_view(&self, sig: &Signal, snap: &StoreSnapshot) -> Seq<char> {
        "Time drift exceeds limit"@
    }

    pub fn validate(&self, sig: &Signal, snap: &StoreSnapshot) -> (r: Result<(), PipelineError>)
        ensures
            r is Ok <==> self.passes(sig, snap),
            r matches Err(e) ==> e is CheckFailed && e.message_view() == self.err_view(sig, snap),
    {
        let drift: u64 = abs_gap(sig.timestamp, snap.market_timestamp);
        if snap.market_timestamp == 0 || drift > self.max_time_drift {
            return Err(PipelineError::CheckFailed(String::from_str("Time drift exceeds limit")));
        }
        Ok(())
    }
}

/// Rejects a signal whose size is too large for the market depth known
/// for its symbol, or whose depth is unknown (zero).
pub struct LiquidityValidator {
    pub min_liquidity_ratio: u64,
}

impl LiquidityValidator {
    pub fn new(config: &ValidationConfig) -> (r: LiquidityValidator)
        ensures
            r.min_liquidity_ratio == config.min_liquidity_ratio,
    {
        LiquidityValidator { min_liquidity_ratio: config.min_liquidity_ratio }
    }

    /// The liquidity rule: depth is known and `size / depth` does not
    /// exceed the configured ratio, decided in product form.
    pub open spec fn passes(&self, sig: &Signal, snap: &StoreSnapshot) -> bool {
        snap.market_depth > 0 && sig.size as int * SCALE as int <= self.min_liquidity_ratio as int
            * snap.market_depth as int
    }

    pub open spec fn err_view(&self, sig: &Signal, snap: &StoreSnapshot) -> Seq<char> {
        "Liquidity ratio exceeds limit"@
    }

    pub fn validate(&self, sig: &Signal, snap: &StoreSnapshot) -> (r: Result<(), PipelineError>)
        ensures
            r is Ok <==> self.passes(sig, snap),
            r matches Err(e) ==> e is CheckFailed && e.message_view() == self.err_view(sig, snap),
    {
        if snap.market_depth == 0 || prod_exceeds(
            sig.size,
            SCALE,
            self.min_liquidity_ratio,
            snap.market_depth,
        ) {
            return Err(
                PipelineError::CheckFailed(String::from_str("Liquidity ratio exceeds limit")),
            );
        }
        Ok(())
    }
}

} // verus!
