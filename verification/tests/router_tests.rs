use trade_gate::config::{ConfigLoader, RawConfig};
use trade_gate::execution_logic::ExecutionLogic;
use trade_gate::latency::LatencyMonitor;
use trade_gate::orchestrator::Orchestrator;
use trade_gate::router::{Router, ValidationResult, VerdictStatus};
use trade_gate::signal::{Signal, SignalKind};
use trade_gate::store::StoreSnapshot;

const NOW: i64 = 1_700_000_000;

fn accepted_signal() -> Signal {
    Signal {
        symbol: "BTC/USD".to_string(),
        kind: SignalKind::Buy,
        size: 500,
        timestamp: NOW,
        entry_price: Some(1_000_000),
        exit_price: Some(1_020_000),
        stop_loss: Some(980_000),
        take_profit: Some(1_020_000),
        expected_price: Some(1_000_000),
        leverage: Some(1),
        region: Some("US".to_string()),
    }
}

fn live_snapshot() -> StoreSnapshot {
    let mut snap = StoreSnapshot::blank();
    snap.market_timestamp = NOW;
    snap.market_depth = 1_000_000;
    snap
}

fn default_router() -> Router {
    Router::new(&ConfigLoader::validation_config(RawConfig::empty()))
}

fn detail(r: &ValidationResult, key: &str) -> Option<bool> {
    r.details
        .iter()
        .find(|(k, _)| k == key)
        .map(|(_, v)| *v)
}

#[test]
fn accepts_clean_signal() {
    let router = default_router();
    let verdict = router.validate(&accepted_signal(), &live_snapshot(), NOW);
    assert_eq!(verdict.status, VerdictStatus::Valid);
    assert_eq!(verdict.reason, "All checks passed");
    assert_eq!(verdict.details.len(), 6);
    assert!(verdict.details.iter().all(|(_, passed)| *passed));
}

#[test]
fn rejects_stale_timestamp() {
    let router = default_router();
    let mut sig = accepted_signal();
    sig.timestamp = NOW - 61;
    let verdict = router.validate(&sig, &live_snapshot(), NOW);
    assert_eq!(verdict.status, VerdictStatus::Rejected);
    assert_eq!(verdict.reason, "Timestamp not fresh");
    assert_eq!(detail(&verdict, "data_check"), Some(false));
}

#[test]
fn rejects_empty_symbol() {
    let router = default_router();
    let mut sig = accepted_signal();
    sig.symbol = String::new();
    let verdict = router.validate(&sig, &live_snapshot(), NOW);
    assert_eq!(verdict.status, VerdictStatus::Rejected);
    assert_eq!(verdict.reason, "Invalid symbol");
}

#[test]
fn rejects_zero_size() {
    let router = default_router();
    let mut sig = accepted_signal();
    sig.size = 0;
    let verdict = router.validate(&sig, &live_snapshot(), NOW);
    assert_eq!(verdict.status, VerdictStatus::Rejected);
    assert_eq!(verdict.reason, "Invalid size");
}

#[test]
fn stage_labels_reason() {
    let router = default_router();
    let mut sig = accepted_signal();
    sig.leverage = Some(11);
    let verdict = router.validate(&sig, &live_snapshot(), NOW);
    assert_eq!(verdict.status, VerdictStatus::Rejected);
    assert_eq!(verdict.reason, "Risk validation failed: Leverage exceeds limit");
}

#[test]
fn order_significance_earliest_check_wins() {
    // Violates both the stop-loss rule (stop too close to entry) and the
    // liquidity rule (depth unknown): the earlier check's reason is
    // reported, never the later one's.
    let router = default_router();
    let mut sig = accepted_signal();
    sig.stop_loss = Some(999_500);
    let mut snap = live_snapshot();
    snap.market_depth = 0;
    let verdict = router.validate(&sig, &snap, NOW);
    assert_eq!(verdict.status, VerdictStatus::Rejected);
    assert_eq!(
        verdict.reason,
        "Stop-loss validation failed: Stop-loss ratio below minimum"
    );
}

#[test]
fn short_circuit_skips_later_checks() {
    let router = default_router();
    let mut sig = accepted_signal();
    sig.stop_loss = Some(999_500);
    let mut snap = live_snapshot();
    snap.market_depth = 0;
    let verdict = router.validate(&sig, &snap, NOW);
    // Checks reached: data, risk, stop-loss. Checks behind the failing
    // one never appear in the detail map.
    assert_eq!(verdict.details.len(), 3);
    assert_eq!(detail(&verdict, "data_check"), Some(true));
    assert_eq!(detail(&verdict, "risk_check"), Some(true));
    assert_eq!(detail(&verdict, "stop_loss_check"), Some(false));
    assert_eq!(detail(&verdict, "strategy_check"), None);
    assert_eq!(detail(&verdict, "goal_check"), None);
    assert_eq!(detail(&verdict, "liquidity_check"), None);
}

#[test]
fn idempotent_verdict() {
    let router = default_router();
    let mut sig = accepted_signal();
    sig.take_profit = Some(1_120_000);
    let snap = live_snapshot();
    let v1 = router.validate(&sig, &snap, NOW);
    let v2 = router.validate(&sig, &snap, NOW);
    assert_eq!(v1.status, v2.status);
    assert_eq!(v1.reason, v2.reason);
    assert_eq!(v1.details, v2.details);
}

#[test]
fn orchestrator_forwards_only_valid() {
    let orchestrator = Orchestrator::new(&ConfigLoader::validation_config(RawConfig::empty()));
    let snap = live_snapshot();

    let (verdict, forwarded) = orchestrator.process_signal(accepted_signal(), &snap, NOW);
    assert_eq!(verdict.status, VerdictStatus::Valid);
    let forwarded = forwarded.expect("accepted signal must be forwarded");
    assert_eq!(forwarded.symbol, "BTC/USD");
    assert_eq!(forwarded.size, 500);

    let mut bad = accepted_signal();
    bad.size = 0;
    let (verdict, withheld) = orchestrator.process_signal(bad, &snap, NOW);
    assert_eq!(verdict.status, VerdictStatus::Rejected);
    assert!(withheld.is_none());
}

#[test]
fn end_to_end_acceptance() {
    // A clean signal passes the full router chain, is forwarded, clears
    // the pre-dispatch gates, and its successful dispatch is recorded
    // with a latency sample.
    let orchestrator = Orchestrator::new(&ConfigLoader::validation_config(RawConfig::empty()));
    let mut logic = ExecutionLogic::new(&ConfigLoader::execution_config(&RawConfig::empty()));
    let mut monitor = LatencyMonitor::new(100);
    let snap = live_snapshot();

    let (verdict, forwarded) = orchestrator.process_signal(accepted_signal(), &snap, NOW);
    assert_eq!(verdict.status, VerdictStatus::Valid);
    let sig = forwarded.expect("accepted signal must be forwarded");

    assert!(logic.pre_trade_checks(&sig, &snap).is_ok());

    let op = "order_execution".to_string();
    let high = monitor.end_measurement(&op, 7);
    assert!(!high);

    let outcome = logic.order_executor.record_outcome(
        &sig.symbol,
        sig.kind,
        sig.size,
        true,
        None,
        7,
        NOW,
    );
    assert!(outcome.success);
    assert_eq!(outcome.latency_ms, 7);

    let stats = logic
        .order_executor
        .get_execution_stats(&sig.symbol)
        .expect("executed symbol must have stats");
    assert_eq!(stats.success_count, 1);
    assert_eq!(stats.failure_count, 0);
    assert_eq!(stats.latency_sum, 7);

    let op_stats = monitor.get_latency_stats(&op).expect("measured operation must have stats");
    assert_eq!(op_stats.count, 1);
    assert_eq!(op_stats.sum, 7);
}

#[test]
fn validation_result_new_keeps_fields() {
    let details = vec![("data_check".to_string(), true)];
    let r = ValidationResult::new(
        VerdictStatus::Valid,
        "All checks passed".to_string(),
        details.clone(),
    );
    assert_eq!(r.status, VerdictStatus::Valid);
    assert_eq!(r.reason, "All checks passed");
    assert_eq!(r.details, details);
}
