//! The validation router: an ordered, fixed chain of checks over one
//! signal, short-circuiting on the first failure and producing a single
//! verdict.
//!
//! The declared order is: data sanity, risk, stop-loss, strategy, goal
//! alignment, liquidity. Order is significant: of two simultaneously
//! violated checks the verdict always names the earlier one, and a check
//! behind a failing one is never reached — its label never enters the
//! per-check detail map. The laws at the end of this module state these
//! guarantees once and for all over the router's mathematical model.

use vstd::prelude::*;
use vstd::string::StringExecFns;
use crate::config::ValidationConfig;
use crate::errors::PipelineError;
use crate::signal::Signal;
use crate::store::StoreSnapshot;
use crate::units::{abs_gap, dist};
use crate::validators::market::LiquidityValidator;
use crate::validators::risk::{RiskAssessor, StopLossChecker};
use crate::validators::strategy::{GoalAlignment, StrategyFilter};

verus! {

/// How far (seconds, either way) a signal's timestamp may sit from the
/// clock and still count as fresh.
pub const FRESHNESS_WINDOW: u64 = 60;

/// The number of checks in the declared chain.
pub const CHECK_COUNT: u64 = 6;

#[derive(Clone, Copy, Debug, PartialEq, Eq, Structural)]
pub enum VerdictStatus {
    Valid,
    Rejected,
}

/// The router's verdict on one signal: the status, the reason (the first
/// failing check's message, under its stage label), and one boolean per
/// check reached.
pub struct ValidationResult {
    pub status: VerdictStatus,
    pub reason: String,
    pub details: Vec<(String, bool)>,
}

/// Mathematical image of a [`ValidationResult`].
#[verifier::ext_equal]
pub struct VerdictView {
    pub status: VerdictStatus,
    pub reason: Seq<char>,
    pub details: Seq<(Seq<char>, bool)>,
}

pub open spec fn detail_view(p: (String, bool)) -> (Seq<char>, bool) {
    (p.0@, p.1)
}

impl View for ValidationResult {
    type V = VerdictView;

    open spec fn view(&self) -> VerdictView {
        VerdictView {
            status: self.status,
            reason: self.reason@,
            details: self.details@.map_values(|p: (String, bool)| detail_view(p)),
        }
    }
}

impl ValidationResult {
    pub fn new(status: VerdictStatus, reason: String, details: Vec<(String, bool)>) -> (r:
        ValidationResult)
        ensures
            r.status == status,
            r.reason == reason,
            r.details == details,
    {
        ValidationResult { status, reason, details }
    }
}

/// The initial data-sanity pass: the timestamp lies within
/// [`FRESHNESS_WINDOW`] of the clock, the symbol is non-empty and the
/// size is positive.
pub open spec fn data_passes(sig: &Signal, now: int) -> bool {
    &&& dist(now, sig.timestamp as int) <= FRESHNESS_WINDOW as int
    &&& sig.symbol@.len() > 0
    &&& sig.size > 0
}

pub open spec fn data_err_view(sig: &Signal, now: int) -> Seq<char> {
    if dist(now, sig.timestamp as int) > FRESHNESS_WINDOW as int {
        "Timestamp not fresh"@
    } else if sig.symbol@.len() == 0 {
        "Invalid symbol"@
    } else {
        "Invalid size"@
    }
}

/// Label under which check `i` of the declared chain reports.
pub open spec fn check_label(i: int) -> Seq<char> {
    if i == 0 {
        "data_check"@
    } else if i == 1 {
        "risk_check"@
    } else if i == 2 {
        "stop_loss_check"@
    } else if i == 3 {
        "strategy_check"@
    } else if i == 4 {
        "goal_check"@
    } else {
        "liquidity_check"@
    }
}

/// Runs the fixed chain of validators against one signal.
pub struct Router {
    pub risk_assessor: RiskAssessor,
    pub stop_loss_checker: StopLossChecker,
    pub strategy_filter: StrategyFilter,
    pub goal_alignment: GoalAlignment,
    pub liquidity_validator: LiquidityValidator,
}

impl Router {
    pub fn new(config: &ValidationConfig) -> (r: Router)
        ensures
            r.risk_assessor.max_leverage == config.max_leverage,
            r.risk_assessor.max_exposure == config.max_exposure,
            r.stop_loss_checker.min_sl_ratio == config.min_sl_ratio,
            r.strategy_filter.max_time_window == config.max_time_window,
            r.goal_alignment.max_risk_reward_ratio == config.max_risk_reward_ratio,
            r.liquidity_validator.min_liquidity_ratio == config.min_liquidity_ratio,
    {
        Router {
            risk_assessor: RiskAssessor::new(config),
            stop_loss_checker: StopLossChecker::new(config),
            strategy_filter: StrategyFilter::new(config),
            goal_alignment: GoalAlignment::new(config),
            liquidity_validator: LiquidityValidator::new(config),
        }
    }

    /// Whether check `i` of the declared chain holds of this signal.
    pub open spec fn check_passes(&self, i: int, sig: &Signal, snap: &StoreSnapshot, now: int) -> bool {
        if i == 0 {
            data_passes(sig, now)
        } else if i == 1 {
            self.risk_assessor.passes(sig, snap)
        } else if i == 2 {
            self.stop_loss_checker.passes(sig)
        } else if i == 3 {
            self.strategy_filter.passes(sig, snap, now)
        } else if i == 4 {
            self.goal_alignment.passes(sig)
        } else {
            self.liquidity_validator.passes(sig, snap)
        }
    }

    /// Index of the earliest check the signal violates; `CHECK_COUNT`
    /// when every check passes.
    pub open spec fn first_failure(&self, sig: &Signal, snap: &StoreSnapshot, now: int) -> int {
        if !self.check_passes(0, sig, snap, now) {
            0
        } else if !self.check_passes(1, sig, snap, now) {
            1
        } else if !self.check_passes(2, sig, snap, now) {
            2
        } else if !self.check_passes(3, sig, snap, now) {
            3
        } else if !self.check_passes(4, sig, snap, now) {
            4
        } else if !self.check_passes(5, sig, snap, now) {
            5
        } else {
            6
        }
    }

    /// The reason check `i` reports when it fails: its validator's
    /// message under the stage label.
    pub open spec fn stage_reason(&self, i: int, sig: &Signal, snap: &StoreSnapshot, now: int) -> Seq<
        char,
    > {
        if i == 0 {
            data_err_view(sig, now)
        } else if i == 1 {
            "Risk validation failed: "@ + self.risk_assessor.err_view(sig, snap)
        } else if i == 2 {
            "Stop-loss validation failed: "@ + self.stop_loss_checker.err_view(sig)
        } else if i == 3 {
            "Strategy validation failed: "@ + self.strategy_filter.err_view(sig, snap, now)
        } else if i == 4 {
            "Goal alignment failed: "@ + self.goal_alignment.err_view(sig)
        } else {
            "Liquidity validation failed: "@ + self.liquidity_validator.err_view(sig, snap)
        }
    }

    pub open spec fn reason_view(&self, sig: &Signal, snap: &StoreSnapshot, now: int) -> Seq<char> {
        let f = self.first_failure(sig, snap, now);
        if f == CHECK_COUNT as int {
            "All checks passed"@
        } else {
            self.stage_reason(f, sig, snap, now)
        }
    }

    /// One entry per check reached: every check up to and including the
    /// first failing one, or all of them when every check passes.
    pub open spec fn details_model(&self, sig: &Signal, snap: &StoreSnapshot, now: int) -> Seq<
        (Seq<char>, bool),
    > {
        let f = self.first_failure(sig, snap, now);
        let n = if f == CHECK_COUNT as int {
            CHECK_COUNT as int
        } else {
            f + 1
        };
        Seq::new(n as nat, |i: int| (check_label(i), self.check_passes(i, sig, snap, now)))
    }

    /// The verdict as a function of the signal, the snapshot and the clock.
    pub open spec fn verdict_model(&self, sig: &Signal, snap: &StoreSnapshot, now: int) -> VerdictView {
        VerdictView {
            status: if self.first_failure(sig, snap, now) == CHECK_COUNT as int {
                VerdictStatus::Valid
            } else {
                VerdictStatus::Rejected
            },
            reason: self.reason_view(sig, snap, now),
            details: self.details_model(sig, snap, now),
        }
    }

    /// The initial data-sanity pass.
    pub fn validate_data(&self, sig: &Signal, now: i64) -> (r: Result<(), PipelineError>)
        ensures
            r is Ok <==> data_passes(sig, now as int),
            r matches Err(e) ==> e is CheckFailed && e.message_view() == data_err_view(
                sig,
                now as int,
            ),
    {
        if abs_gap(now, sig.timestamp) > FRESHNESS_WINDOW {
            return Err(PipelineError::CheckFailed(String::from_str("Timestamp not fresh")));
        }
        if sig.symbol.as_str().is_empty() {
            return Err(PipelineError::CheckFailed(String::from_str("Invalid symbol")));
        }
        if sig.size == 0 {
            return Err(PipelineError::CheckFailed(String::from_str("Invalid size")));
        }
        Ok(())
    }

    /// Runs the chain strictly in declared order, stopping at the first
    /// failure, and returns the verdict the model prescribes.
    pub fn validate(&self, sig: &Signal, snap: &StoreSnapshot, now: i64) -> (r: ValidationResult)
        ensures
            r@ == self.verdict_model(sig, snap, now as int),
    {
        let ghost gnow: int = now as int;
        let mut details: Vec<(String, bool)> = Vec::new();
        if let Err(e) = self.validate_data(sig, now) {
            details.push((String::from_str("data_check"), false));
            let r = ValidationResult::new(VerdictStatus::Rejected, e.message(), details);
            proof {
                assert(r@.details =~= self.details_model(sig, snap, gnow));
                assert(r@ =~= self.verdict_model(sig, snap, gnow));
            }
            return r;
        }
        details.push((String::from_str("data_check"), true));
        if let Err(e) = self.risk_assessor.validate(sig, snap) {
            details.push((String::from_str("risk_check"), false));
            let reason = String::from_str("Risk validation failed: ").concat(e.message().as_str());
            let r = ValidationResult::new(VerdictStatus::Rejected, reason, details);
            proof {
                assert(r@.details =~= self.details_model(sig, snap, gnow));
                assert(r@ =~= self.verdict_model(sig, snap, gnow));
            }
            return r;
        }
        details.push((String::from_str("risk_check"), true));
        if let Err(e) = self.stop_loss_checker.validate(sig) {
            details.push((String::from_str("stop_loss_check"), false));
            let reason = String::from_str("Stop-loss validation failed: ").concat(
                e.message().as_str(),
            );
            let r = ValidationResult::new(VerdictStatus::Rejected, reason, details);
            proof {
                assert(r@.details =~= self.details_model(sig, snap, gnow));
                assert(r@ =~= self.verdict_model(sig, snap, gnow));
            }
            return r;
        }
        details.push((String::from_str("stop_loss_check"), true));
        if let Err(e) = self.strategy_filter.validate(sig, snap, now) {
            details.push((String::from_str("strategy_check"), false));
            let reason = String::from_str("Strategy validation failed: ").concat(
                e.message().as_str(),
            );
            let r = ValidationResult::new(VerdictStatus::Rejected, reason, details);
            proof {
                assert(r@.details =~= self.details_model(sig, snap, gnow));
                assert(r@ =~= self.verdict_model(sig, snap, gnow));
            }
            return r;
        }
        details.push((String::from_str("strategy_check"), true));
        if let Err(e) = self.goal_alignment.validate(sig) {
            details.push((String::from_str("goal_check"), false));
            let reason = String::from_str("Goal alignment failed: ").concat(e.message().as_str());
            let r = ValidationResult::new(VerdictStatus::Rejected, reason, details);
            proof {
                assert(r@.details =~= self.details_model(sig, snap, gnow));
                assert(r@ =~= self.verdict_model(sig, snap, gnow));
            }
            return r;
        }
        details.push((String::from_str("goal_check"), true));
        if let Err(e) = self.liquidity_validator.validate(sig, snap) {
            details.push((String::from_str("liquidity_check"), false));
            let reason = String::from_str("Liquidity validation failed: ").concat(
                e.message().as_str(),
            );
            let r = ValidationResult::new(VerdictStatus::Rejected, reason, details);
            proof {
                assert(r@.details =~= self.details_model(sig, snap, gnow));
                assert(r@ =~= self.verdict_model(sig, snap, gnow));
            }
            return r;
        }
        details.push((String::from_str("liquidity_check"), true));
        let r = ValidationResult::new(
            VerdictStatus::Valid,
            String::from_str("All checks passed"),
            details,
        );
        proof {
            assert(r@.details =~= self.details_model(sig, snap, gnow));
            assert(r@ =~= self.verdict_model(sig, snap, gnow));
        }
        r
    }
}

/// Order-significance law: when a signal violates check `i` and every
/// earlier check passes, the verdict rejects it with check `i`'s reason —
/// never a later check's, however many later checks are also violated.
pub proof fn lemma_order_significance(
    router: Router,
    sig: Signal,
    snap: StoreSnapshot,
    now: int,
    i: int,
)
    requires
        0 <= i < CHECK_COUNT as int,
        !router.check_passes(i, &sig, &snap, now),
        forall|k: int| 0 <= k < i ==> router.check_passes(k, &sig, &snap, now),
    ensures
        router.first_failure(&sig, &snap, now) == i,
        router.verdict_model(&sig, &snap, now).status is Rejected,
        router.verdict_model(&sig, &snap, now).reason == router.stage_reason(i, &sig, &snap, now),
{
}

/// Short-circuit law: when a signal violates check `i` and every earlier
/// check passes, the verdict's detail map holds exactly the checks up to
/// and including `i` — a check placed after a failing one is never
/// reached.
pub proof fn lemma_short_circuit(
    router: Router,
    sig: Signal,
    snap: StoreSnapshot,
    now: int,
    i: int,
)
    requires
        0 <= i < CHECK_COUNT as int,
        !router.check_passes(i, &sig, &snap, now),
        forall|k: int| 0 <= k < i ==> router.check_passes(k, &sig, &snap, now),
    ensures
        router.verdict_model(&sig, &snap, now).details.len() == i + 1,
        forall|k: int|
            0 <= k <= i ==> #[trigger] router.verdict_model(&sig, &snap, now).details[k] == (
            check_label(k),
            k < i,
            ),
{
}

/// Verdict invariant: the status is `Rejected` exactly when some reached
/// check recorded `false`; among the reached checks only the last —
/// the earliest violated one — records `false`, and the reason is that
/// check's message, or the all-clear text when every check passed.
pub proof fn lemma_verdict_consistency(router: Router, sig: Signal, snap: StoreSnapshot, now: int)
    ensures
        (router.verdict_model(&sig, &snap, now).status is Rejected) <==> exists|k: int|
            0 <= k < router.details_model(&sig, &snap, now).len()
                && !(#[trigger] router.details_model(&sig, &snap, now)[k]).1,
        forall|k: int|
            0 <= k < router.details_model(&sig, &snap, now).len() ==> ((
            #[trigger] router.details_model(&sig, &snap, now)[k]).1 == false <==> k
                == router.first_failure(&sig, &snap, now)),
        (router.verdict_model(&sig, &snap, now).status is Rejected) ==> router.verdict_model(
            &sig,
            &snap,
            now,
        ).reason == router.stage_reason(router.first_failure(&sig, &snap, now), &sig, &snap, now),
        (router.verdict_model(&sig, &snap, now).status is Valid) ==> router.verdict_model(
            &sig,
            &snap,
            now,
        ).reason == "All checks passed"@,
{
    let f = router.first_failure(&sig, &snap, now);
    if f < CHECK_COUNT as int {
        assert(!router.details_model(&sig, &snap, now)[f].1);
    }
}

/// Idempotent-verdict law: two validations of the same signal against the
/// same store state yield identical verdicts — the verdict is a function
/// of the signal, the snapshot and the clock alone.
pub proof fn lemma_idempotent_verdict(
    router: Router,
    sig: Signal,
    snap: StoreSnapshot,
    now: int,
    r1: ValidationResult,
    r2: ValidationResult,
)
    requires
        r1@ == router.verdict_model(&sig, &snap, now),
        r2@ == router.verdict_model(&sig, &snap, now),
    ensures
        r1@ == r2@,
{
}

} // verus!
