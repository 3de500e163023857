//! Strategy checks: signal age, price sanity and duplicate detection, and
//! the risk/reward goal alignment.

use vstd::prelude::*;
use vstd::string::StringExecFns;
use crate::config::ValidationConfig;
use crate::errors::PipelineError;
use crate::signal::Signal;
use crate::store::StoreSnapshot;
use crate::units::{SCALE, dist, prod_exceeds};

verus! {

/// Rejects a signal that is older than the configured window, carries a
/// non-positive entry or exit price, or exactly duplicates a recently
/// seen signal for its symbol.
pub struct StrategyFilter {
    pub max_time_window: u64,
}

/// Whether the recent history holds a signal structurally equal to `sig`.
pub open spec fn is_duplicate(sig: &Signal, snap: &StoreSnapshot) -> bool {
    exists|i: int| 0 <= i < snap.signal_history@.len() && snap.signal_history@[i]@ == sig@
}

impl StrategyFilter {
    pub fn new(config: &ValidationConfig) -> (r: StrategyFilter)
        ensures
            r.max_time_window == config.max_time_window,
    {
        StrategyFilter { max_time_window: config.max_time_window }
    }

    /// The signal is no older than `max_time_window` seconds; a timestamp
    /// ahead of the clock is not penalised here.
    pub open spec fn fresh(&self, sig: &Signal, now: int) -> bool {
        now - sig.timestamp as int <= self.max_time_window as int
    }

    pub open spec fn prices_ok(sig: &Signal) -> bool {
        sig.entry_price matches Some(entry) && sig.exit_price matches Some(exit) && entry > 0
            && exit > 0
    }

    pub open spec fn passes(&self, sig: &Signal, snap: &StoreSnapshot, now: int) -> bool {
        &&& sig.entry_price is Some
        &&& sig.exit_price is Some
        &&& self.fresh(sig, now)
        &&& Self::prices_ok(sig)
        &&& !is_duplicate(sig, snap)
    }

    pub open spec fn err_view(&self, sig: &Signal, snap: &StoreSnapshot, now: int) -> Seq<char> {
        if sig.entry_price is None {
            "Missing entry price"@
        } else if sig.exit_price is None {
            "Missing exit price"@
        } else if !self.fresh(sig, now) {
            "Strategy timestamp exceeds window"@
        } else if !Self::prices_ok(sig) {
            "Invalid entry or exit price"@
        } else {
            "Duplicate strategy signal detected"@
        }
    }

    pub fn validate(&self, sig: &Signal, snap: &StoreSnapshot, now: i64) -> (r: Result<
        (),
        PipelineError,
    >)
        ensures
            r is Ok <==> self.passes(sig, snap, now as int),
            r matches Err(e) ==> e.message_view() == self.err_view(sig, snap, now as int),
            sig.entry_price is None || sig.exit_price is None ==> (r matches Err(e)
                && e is MissingField),
            sig.entry_price is Some && sig.exit_price is Some && !self.passes(
                sig,
                snap,
                now as int,
            ) ==> (r matches Err(e) && e is CheckFailed),
    {
        let entry: u64 = match sig.entry_price {
            Some(e) => e,
            None => {
                return Err(PipelineError::MissingField(String::from_str("Missing entry price")));
            },
        };
        let exit: u64 = match sig.exit_price {
            Some(e) => e,
            None => {
                return Err(PipelineError::MissingField(String::from_str("Missing exit price")));
            },
        };
        if (now as i128) - (sig.timestamp as i128) > (self.max_time_window as i128) {
            return Err(
                PipelineError::CheckFailed(String::from_str("Strategy timestamp exceeds window")),
            );
        }
        if entry == 0 || exit == 0 {
            return Err(
                PipelineError::CheckFailed(String::from_str("Invalid entry or exit price")),
            );
        }
        let mut i: usize = 0;
        while i < snap.signal_history.len()
            invariant
                0 <= i <= snap.signal_history@.len(),
                forall|j: int| 0 <= j < i ==> snap.signal_history@[j]@ != sig@,
                sig.entry_price is Some,
                sig.exit_price is Some,
                self.fresh(sig, now as int),
                Self::prices_ok(sig),
            decreases snap.signal_history@.len() - i,
        {
            if snap.signal_history[i].same_as(sig) {
                proof {
                    assert(snap.signal_history@[i as int]@ == sig@);
                    assert(is_duplicate(sig, snap));
                }
                return Err(
                    PipelineError::CheckFailed(
                        String::from_str("Duplicate strategy signal detected"),
                    ),
                );
            }
            i = i + 1;
        }
        Ok(())
    }
}

/// Rejects a signal whose stop-loss equals its entry price (zero risk) or
/// whose reward-to-risk ratio exceeds the configured maximum.
pub struct GoalAlignment {
    pub max_risk_reward_ratio: u64,
}

impl GoalAlignment {
    pub fn new(config: &ValidationConfig) -> (r: GoalAlignment)
        ensures
            r.max_risk_reward_ratio == config.max_risk_reward_ratio,
    {
        GoalAlignment { max_risk_reward_ratio: config.max_risk_reward_ratio }
    }

    pub open spec fn fields_present(sig: &Signal) -> bool {
        sig.stop_loss is Some && sig.take_profit is Some && sig.entry_price is Some
    }

    /// Distance from entry to stop: the magnitude of the direction-aware
    /// risk, identical for a buy and a sell.
    pub open spec fn risk_of(sig: &Signal) -> int {
        dist(sig.entry_price->Some_0 as int, sig.stop_loss->Some_0 as int)
    }

    /// Distance from entry to take-profit: the magnitude of the reward.
    pub open spec fn reward_of(sig: &Signal) -> int {
        dist(sig.take_profit->Some_0 as int, sig.entry_price->Some_0 as int)
    }

    /// The goal rule: risk is non-zero and `reward / risk` does not
    /// exceed the configured maximum, decided in product form.
    pub open spec fn ratio_ok(&self, sig: &Signal) -> bool {
        Self::risk_of(sig) != 0 && Self::reward_of(sig) * SCALE as int
            <= self.max_risk_reward_ratio as int * Self::risk_of(sig)
    }

    pub open spec fn passes(&self, sig: &Signal) -> bool {
        Self::fields_present(sig) && self.ratio_ok(sig)
    }

    pub open spec fn err_view(&self, sig: &Signal) -> Seq<char> {
        if sig.stop_loss is None {
            "Missing stop-loss"@
        } else if sig.take_profit is None {
            "Missing take-profit"@
        } else if sig.entry_price is None {
            "Missing entry price"@
        } else if Self::risk_of(sig) == 0 {
            "Invalid risk: stop-loss equals entry price"@
        } else {
            "Risk-reward ratio exceeds limit"@
        }
    }

    pub fn validate(&self, sig: &Signal) -> (r: Result<(), PipelineError>)
        ensures
            r is Ok <==> self.passes(sig),
            r matches Err(e) ==> e.message_view() == self.err_view(sig),
            !Self::fields_present(sig) ==> (r matches Err(e) && e is MissingField),
            Self::fields_present(sig) && !self.ratio_ok(sig) ==> (r matches Err(e)
                && e is CheckFailed),
    {
        let stop: u64 = match sig.stop_loss {
            Some(s) => s,
            None => {
                return Err(PipelineError::MissingField(String::from_str("Missing stop-loss")));
            },
        };
        let take_profit: u64 = match sig.take_profit {
            Some(t) => t,
            None => {
                return Err(PipelineError::MissingField(String::from_str("Missing take-profit")));
            },
        };
        let entry: u64 = match sig.entry_price {
            Some(e) => e,
            None => {
                return Err(PipelineError::MissingField(String::from_str("Missing entry price")));
            },
        };
        let risk: u64 = if entry >= stop {
            entry - stop
        } else {
            stop - entry
        };
        if risk == 0 {
            return Err(
                PipelineError::CheckFailed(
                    String::from_str("Invalid risk: stop-loss equals entry price"),
                ),
            );
        }
        let reward: u64 = if take_profit >= entry {
            take_profit - entry
        } else {
            entry - take_profit
        };
        if prod_exceeds(reward, SCALE, self.max_risk_reward_ratio, risk) {
            return Err(
                PipelineError::CheckFailed(String::from_str("Risk-reward ratio exceeds limit")),
            );
        }
        Ok(())
    }
}

} // verus!
