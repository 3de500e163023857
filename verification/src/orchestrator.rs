//! The validation orchestrator's per-signal step.
//!
//! The enclosing consumption loop — receiving from the inbound queue,
//! publishing the verdict, pushing rejections onto the durable log and
//! forwarding accepted signals — belongs to the runtime around this
//! crate. The decision it drives is here: one signal in, the verdict and
//! the forwarding choice out. An accepted signal is handed back
//! unchanged; a rejected one is withheld, and its verdict carries the
//! reason.

use vstd::prelude::*;
use crate::config::ValidationConfig;
use crate::router::{Router, ValidationResult, VerdictStatus};
use crate::signal::Signal;
use crate::store::StoreSnapshot;

verus! {

/// Drives the router over each inbound signal.
pub struct Orchestrator {
    pub router: Router,
}

impl Orchestrator {
    pub fn new(config: &ValidationConfig) -> (r: Orchestrator)
        ensures
            r.router.risk_assessor.max_leverage == config.max_leverage,
            r.router.risk_assessor.max_exposure == config.max_exposure,
            r.router.stop_loss_checker.min_sl_ratio == config.min_sl_ratio,
            r.router.strategy_filter.max_time_window == config.max_time_window,
            r.router.goal_alignment.max_risk_reward_ratio == config.max_risk_reward_ratio,
            r.router.liquidity_validator.min_liquidity_ratio == config.min_liquidity_ratio,
    {
        Orchestrator { router: Router::new(config) }
    }

    /// One step of the consumption loop: validate the signal, and either
    /// forward it unchanged (valid) or withhold it (rejected). The
    /// verdict is returned in both cases, for publishing and for the
    /// rejection log.
    pub fn process_signal(&self, sig: Signal, snap: &StoreSnapshot, now: i64) -> (r: (
        ValidationResult,
        Option<Signal>,
    ))
        ensures
            r.0@ == self.router.verdict_model(&sig, snap, now as int),
            r.0.status is Valid ==> r.1 == Some(sig),
            r.0.status is Rejected ==> r.1 is None,
    {
        let verdict = self.router.validate(&sig, snap, now);
        let forward: Option<Signal> = match verdict.status {
            VerdictStatus::Valid => Some(sig),
            VerdictStatus::Rejected => None,
        };
        (verdict, forward)
    }
}

} // verus!
