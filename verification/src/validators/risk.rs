//! Risk checks: leverage and exposure, and the stop-loss distance.

use vstd::prelude::*;
use vstd::string::StringExecFns;
use crate::config::ValidationConfig;
use crate::errors::PipelineError;
use crate::signal::Signal;
use crate::store::StoreSnapshot;
use crate::units::{SCALE, dist, prod_below, sum_prod_exceeds};

verus! {

/// Rejects a signal whose leverage exceeds the configured maximum, or
/// whose leverage-adjusted size would push the symbol's exposure over the
/// configured maximum.
pub struct RiskAssessor {
    pub max_leverage: u64,
    pub max_exposure: u64,
}

/// Effective leverage of a signal: an absent leverage means `1`.
pub open spec fn leverage_of(sig: &Signal) -> int {
    match sig.leverage {
        Some(l) => l as int,
        None => 1,
    }
}

impl RiskAssessor {
    pub fn new(config: &ValidationConfig) -> (r: RiskAssessor)
        ensures
            r.max_leverage == config.max_leverage,
            r.max_exposure == config.max_exposure,
    {
        RiskAssessor { max_leverage: config.max_leverage, max_exposure: config.max_exposure }
    }

    pub open spec fn leverage_ok(&self, sig: &Signal) -> bool {
        leverage_of(sig) <= self.max_leverage as int
    }

    /// The exposure gate: known current exposure plus `size * leverage`
    /// stays within the maximum. A failed store read never passes.
    pub open spec fn exposure_ok(&self, sig: &Signal, snap: &StoreSnapshot) -> bool {
        snap.portfolio_exposure matches Some(e) && e as int + sig.size as int * leverage_of(sig)
            <= self.max_exposure as int
    }

    pub open spec fn passes(&self, sig: &Signal, snap: &StoreSnapshot) -> bool {
        self.leverage_ok(sig) && self.exposure_ok(sig, snap)
    }

    pub open spec fn err_view(&self, sig: &Signal, snap: &StoreSnapshot) -> Seq<char> {
        if !self.leverage_ok(sig) {
            "Leverage exceeds limit"@
        } else if snap.portfolio_exposure is None {
            "State store unavailable"@
        } else {
            "Total exposure exceeds limit"@
        }
    }

    pub fn validate(&self, sig: &Signal, snap: &StoreSnapshot) -> (r: Result<(), PipelineError>)
        ensures
            r is Ok <==> self.passes(sig, snap),
            r matches Err(e) ==> e.message_view() == self.err_view(sig, snap),
            !self.leverage_ok(sig) ==> (r matches Err(e) && e is CheckFailed),
            self.leverage_ok(sig) && snap.portfolio_exposure is None ==> (r matches Err(e)
                && e is StoreUnavailable),
            self.leverage_ok(sig) && snap.portfolio_exposure is Some && !self.exposure_ok(
                sig,
                snap,
            ) ==> (r matches Err(e) && e is CheckFailed),
    {
        let leverage: u64 = match sig.leverage {
            Some(l) => l,
            None => 1,
        };
        if leverage > self.max_leverage {
            return Err(PipelineError::CheckFailed(String::from_str("Leverage exceeds limit")));
        }
        let exposure: u64 = match snap.portfolio_exposure {
            Some(e) => e,
            None => {
                return Err(PipelineError::StoreUnavailable);
            },
        };
        if sum_prod_exceeds(exposure, sig.size, leverage, self.max_exposure) {
            return Err(
                PipelineError::CheckFailed(String::from_str("Total exposure exceeds limit")),
            );
        }
        Ok(())
    }
}

/// Rejects a signal whose stop-loss sits closer to the entry price than
/// the configured minimum ratio allows.
pub struct StopLossChecker {
    pub min_sl_ratio: u64,
}

impl StopLossChecker {
    pub fn new(config: &ValidationConfig) -> (r: StopLossChecker)
        ensures
            r.min_sl_ratio == config.min_sl_ratio,
    {
        StopLossChecker { min_sl_ratio: config.min_sl_ratio }
    }

    /// The stop-loss distance rule. The ratio `(entry - stop) / entry`
    /// (reversed for a sell) only ever enters through its magnitude, so
    /// the direction-aware sign drops out: the check holds when
    /// `|entry - stop| * SCALE >= min_sl_ratio * entry`.
    pub open spec fn ratio_ok(&self, sig: &Signal) -> bool {
        sig.stop_loss matches Some(stop) && sig.entry_price matches Some(entry) && dist(
            entry as int,
            stop as int,
        ) * SCALE as int >= self.min_sl_ratio as int * entry as int
    }

    pub open spec fn passes(&self, sig: &Signal) -> bool {
        sig.stop_loss is Some && sig.entry_price is Some && self.ratio_ok(sig)
    }

    pub open spec fn err_view(&self, sig: &Signal) -> Seq<char> {
        if sig.stop_loss is None {
            "Missing stop-loss"@
        } else if sig.entry_price is None {
            "Missing entry price"@
        } else {
            "Stop-loss ratio below minimum"@
        }
    }

    pub fn validate(&self, sig: &Signal) -> (r: Result<(), PipelineError>)
        ensures
            r is Ok <==> self.passes(sig),
            r matches Err(e) ==> e.message_view() == self.err_view(sig),
            sig.stop_loss is None || sig.entry_price is None ==> (r matches Err(e)
                && e is MissingField),
            sig.stop_loss is Some && sig.entry_price is Some && !self.ratio_ok(sig) ==> (r matches
                Err(e) && e is CheckFailed),
    {
        let stop: u64 = match sig.stop_loss {
            Some(s) => s,
            None => {
                return Err(PipelineError::MissingField(String::from_str("Missing stop-loss")));
            },
        };
        let entry: u64 = match sig.entry_price {
            Some(e) => e,
            None => {
                return Err(PipelineError::MissingField(String::from_str("Missing entry price")));
            },
        };
        let gap: u64 = if entry >= stop {
            entry - stop
        } else {
            stop - entry
        };
        if prod_below(gap, SCALE, self.min_sl_ratio, entry) {
            return Err(
                PipelineError::CheckFailed(String::from_str("Stop-loss ratio below minimum")),
            );
        }
        Ok(())
    }
}

} // verus!
