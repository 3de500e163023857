//! Compliance, consistency and cost checks.

use vstd::prelude::*;
use vstd::string::StringExecFns;
use crate::config::ValidationConfig;
use crate::errors::PipelineError;
use crate::signal::{Signal, SignalKind};
use crate::store::{StoreSnapshot, clone_strings, contains_str, contains_string};
use crate::units::mul_wide;

verus! {

/// Rejects a signal from a region outside the allow-list, or whose
/// symbol is on the region's restricted set.
pub struct Compliance {
    pub allowed_regions: Vec<String>,
}

impl Compliance {
    pub fn new(config: &ValidationConfig) -> (r: Compliance)
        ensures
            r.allowed_regions@ == config.allowed_regions@,
    {
        Compliance { allowed_regions: clone_strings(&config.allowed_regions) }
    }

    pub open spec fn region_allowed(&self, sig: &Signal) -> bool {
        sig.region matches Some(region) && contains_str(self.allowed_regions@, region@)
    }

    /// The restricted-set gate: the set is known and the symbol is not on
    /// it. A failed store read never passes.
    pub open spec fn symbol_unrestricted(sig: &Signal, snap: &StoreSnapshot) -> bool {
        snap.restricted_symbols matches Some(set) && !contains_str(set@, sig.symbol@)
    }

    pub open spec fn passes(&self, sig: &Signal, snap: &StoreSnapshot) -> bool {
        &&& sig.region is Some
        &&& self.region_allowed(sig)
        &&& Self::symbol_unrestricted(sig, snap)
    }

    pub open spec fn err_view(&self, sig: &Signal, snap: &StoreSnapshot) -> Seq<char> {
        if sig.region is None {
            "Missing region"@
        } else if !self.region_allowed(sig) {
            "Region not allowed"@
        } else if snap.restricted_symbols is None {
            "State store unavailable"@
        } else {
            "Symbol restricted in region"@
        }
    }

    pub fn validate(&self, sig: &Signal, snap: &StoreSnapshot) -> (r: Result<(), PipelineError>)
        ensures
            r is Ok <==> self.passes(sig, snap),
            r matches Err(e) ==> e.message_view() == self.err_view(sig, snap),
            sig.region is None ==> (r matches Err(e) && e is MissingField),
            sig.region is Some && !self.region_allowed(sig) ==> (r matches Err(e)
                && e is CheckFailed),
            self.region_allowed(sig) && snap.restricted_symbols is None ==> (r matches Err(e)
                && e is StoreUnavailable),
            self.region_allowed(sig) && snap.restricted_symbols is Some && !Self::symbol_unrestricted(
                sig,
                snap,
            ) ==> (r matches Err(e) && e is CheckFailed),
    {
        let region: &String = match &sig.region {
            Some(region) => region,
            None => {
                return Err(PipelineError::MissingField(String::from_str("Missing region")));
            },
        };
        if !contains_string(&self.allowed_regions, region) {
            return Err(PipelineError::CheckFailed(String::from_str("Region not allowed")));
        }
        let restricted: &Vec<String> = match &snap.restricted_symbols {
            Some(set) => set,
            None => {
                return Err(PipelineError::StoreUnavailable);
            },
        };
        if contains_string(restricted, &sig.symbol) {
            return Err(PipelineError::CheckFailed(String::from_str("Symbol restricted in region")));
        }
        Ok(())
    }
}

/// How many signals may already sit in a symbol's recent queue before a
/// further one is refused.
pub const RECENT_SIGNAL_LIMIT: usize = 10;

/// Whether two trade directions oppose each other.
pub open spec fn opposes(a: SignalKind, b: SignalKind) -> bool {
    (a is Buy && b is Sell) || (a is Sell && b is Buy)
}

/// Rejects a signal that opposes an open position for its symbol, or
/// whose symbol already has too many recent signals queued.
pub struct Consistency {
}

impl Consistency {
    pub fn new() -> (r: Consistency) {
        Consistency {  }
    }

    pub open spec fn conflicting_position(sig: &Signal, snap: &StoreSnapshot) -> bool {
        exists|i: int|
            0 <= i < snap.open_position_kinds@.len() && opposes(
                sig.kind,
                snap.open_position_kinds@[i],
            )
    }

    pub open spec fn queue_has_room(snap: &StoreSnapshot) -> bool {
        snap.recent_signal_count < RECENT_SIGNAL_LIMIT
    }

    pub open spec fn passes(sig: &Signal, snap: &StoreSnapshot) -> bool {
        !Self::conflicting_position(sig, snap) && Self::queue_has_room(snap)
    }

    pub open spec fn err_view(sig: &Signal, snap: &StoreSnapshot) -> Seq<char> {
        if Self::conflicting_position(sig, snap) {
            "Conflicting position detected"@
        } else {
            "Too many recent signals"@
        }
    }

    pub fn validate(&self, sig: &Signal, snap: &StoreSnapshot) -> (r: Result<(), PipelineError>)
        ensures
            r is Ok <==> Self::passes(sig, snap),
            r matches Err(e) ==> e is CheckFailed && e.message_view() == Self::err_view(sig, snap),
    {
        let mut i: usize = 0;
        while i < snap.open_position_kinds.len()
            invariant
                0 <= i <= snap.open_position_kinds@.len(),
                forall|j: int| 0 <= j < i ==> !opposes(sig.kind, snap.open_position_kinds@[j]),
            decreases snap.open_position_kinds@.len() - i,
        {
            let pos: SignalKind = snap.open_position_kinds[i];
            let conflict: bool = match (sig.kind, pos) {
                (SignalKind::Buy, SignalKind::Sell) => true,
                (SignalKind::Sell, SignalKind::Buy) => true,
                _ => false,
            };
            if conflict {
                return Err(
                    PipelineError::CheckFailed(String::from_str("Conflicting position detected")),
                );
            }
            i = i + 1;
        }
        if snap.recent_signal_count >= RECENT_SIGNAL_LIMIT {
            return Err(PipelineError::CheckFailed(String::from_str("Too many recent signals")));
        }
        Ok(())
    }
}

/// Rejects a signal whose broker commission exceeds the configured
/// maximum, or whose projected slippage cost exceeds the allowed
/// slippage cost.
pub struct CostAnalysis {
    pub max_slippage_bps: u64,
    pub max_commission_pct: u64,
}

impl CostAnalysis {
    pub fn new(config: &ValidationConfig) -> (r: CostAnalysis)
        ensures
            r.max_slippage_bps == config.max_slippage_bps,
            r.max_commission_pct == config.max_commission_pct,
    {
        CostAnalysis {
            max_slippage_bps: config.max_slippage_bps,
            max_commission_pct: config.max_commission_pct,
        }
    }

    pub open spec fn commission_ok(&self, snap: &StoreSnapshot) -> bool {
        snap.commission_pct <= self.max_commission_pct
    }

    /// The slippage-cost rule, in the cost form both sides share the
    /// notional `entry * size` factor of: the recorded slippage cost
    /// `bps * entry * size` stays within the allowed one.
    pub open spec fn slippage_cost_ok(&self, sig: &Signal, snap: &StoreSnapshot) -> bool {
        sig.entry_price matches Some(entry) && snap.recorded_slippage_bps as int * (entry as int
            * sig.size as int) <= self.max_slippage_bps as int * (entry as int * sig.size as int)
    }

    pub open spec fn passes(&self, sig: &Signal, snap: &StoreSnapshot) -> bool {
        sig.entry_price is Some && self.commission_ok(snap) && self.slippage_cost_ok(sig, snap)
    }

    pub open spec fn err_view(&self, sig: &Signal, snap: &StoreSnapshot) -> Seq<char> {
        if sig.entry_price is None {
            "Missing entry price"@
        } else if !self.commission_ok(snap) {
            "Commission exceeds limit"@
        } else {
            "Slippage cost exceeds limit"@
        }
    }

    pub fn validate(&self, sig: &Signal, snap: &StoreSnapshot) -> (r: Result<(), PipelineError>)
        ensures
            r is Ok <==> self.passes(sig, snap),
            r matches Err(e) ==> e.message_view() == self.err_view(sig, snap),
            sig.entry_price is None ==> (r matches Err(e) && e is MissingField),
            sig.entry_price is Some && !(self.commission_ok(snap) && self.slippage_cost_ok(
                sig,
                snap,
            )) ==> (r matches Err(e) && e is CheckFailed),
    {
        let entry: u64 = match sig.entry_price {
            Some(e) => e,
            None => {
                return Err(PipelineError::MissingField(String::from_str("Missing entry price")));
            },
        };
        if snap.commission_pct > self.max_commission_pct {
            return Err(PipelineError::CheckFailed(String::from_str("Commission exceeds limit")));
        }
        let notional: u128 = mul_wide(entry, sig.size);
        let costly: bool = notional > 0 && snap.recorded_slippage_bps > self.max_slippage_bps;
        proof {
            let n = entry as int * sig.size as int;
            let s = snap.recorded_slippage_bps as int;
            let m = self.max_slippage_bps as int;
            if n > 0 {
                assert((s * n > m * n) == (s > m)) by (nonlinear_arith)
                    requires
                        n > 0,
                ;
            } else {
                assert(s * n == 0 && m * n == 0) by (nonlinear_arith)
                    requires
                        n == 0,
                ;
            }
        }
        if costly {
            return Err(PipelineError::CheckFailed(String::from_str("Slippage cost exceeds limit")));
        }
        Ok(())
    }
}

} // verus!
