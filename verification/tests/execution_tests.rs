use trade_gate::config::{ConfigLoader, RawConfig};
use trade_gate::errors::PipelineError;
use trade_gate::execution_logic::ExecutionLogic;
use trade_gate::executor::OrderExecutor;
use trade_gate::risk_filters::RiskFilters;
use trade_gate::signal::{Signal, SignalKind};
use trade_gate::slippage::SlippageController;
use trade_gate::store::StoreSnapshot;

const WHEN: i64 = 1_700_000_000;

fn exec_signal() -> Signal {
    Signal {
        symbol: "ETH/USD".to_string(),
        kind: SignalKind::Sell,
        size: 500,
        timestamp: WHEN,
        entry_price: Some(1_000_000),
        exit_price: Some(1_020_000),
        stop_loss: Some(1_020_000),
        take_profit: Some(980_000),
        expected_price: Some(1_000_000),
        leverage: None,
        region: None,
    }
}

fn default_slippage() -> SlippageController {
    SlippageController::new(&ConfigLoader::execution_config(&RawConfig::empty()))
}

fn default_risk_filters() -> RiskFilters {
    RiskFilters::new(&ConfigLoader::execution_config(&RawConfig::empty()))
}

fn default_executor() -> OrderExecutor {
    OrderExecutor::new(&ConfigLoader::execution_config(&RawConfig::empty()))
}

#[test]
fn slippage_boundary() {
    let s = default_slippage();
    // expected 100.0, actual 100.5: exactly 50 bps, at the limit: admitted.
    assert!(s.check_slippage(1_000_000, 1_005_000).is_ok());
    // expected 100.0, actual 100.51: 51 bps over a 50 bps limit: rejected.
    let err = s.check_slippage(1_000_000, 1_005_100).expect_err("51 bps must be rejected");
    assert!(err.message().contains("exceeds limit"));
    // expected 100.0, actual 100.6: 60 bps: rejected.
    assert!(s.check_slippage(1_000_000, 1_006_000).is_err());
    // The deviation counts in both directions.
    assert!(s.check_slippage(1_000_000, 994_900).is_err());
    assert!(s.check_slippage(1_000_000, 995_000).is_ok());
}

#[test]
fn slippage_hot_reload_rejects_zero() {
    let mut s = default_slippage();
    assert!(matches!(s.update_slippage_limit(0), Err(PipelineError::LimitUpdateRejected)));
    // The prior limit stays active.
    assert!(s.check_slippage(1_000_000, 1_005_100).is_err());
    // A positive limit takes effect.
    assert!(s.update_slippage_limit(100).is_ok());
    assert!(s.check_slippage(1_000_000, 1_005_100).is_ok());
}

#[test]
fn risk_filters_gate_size_and_loss() {
    let f = default_risk_filters();
    let mut snap = StoreSnapshot::blank();

    assert!(f.apply_filters(500, &snap).is_ok());
    // Default maximum order size is 100000.0 scaled.
    assert!(f.apply_filters(1_000_000_001, &snap).is_err());
    assert!(f.apply_filters(1_000_000_000, &snap).is_ok());

    // Daily loss at the limit rejects; just below passes.
    snap.daily_loss = Some(500);
    let err = f.apply_filters(500, &snap).expect_err("loss at limit must be rejected");
    assert_eq!(err.message(), "Daily loss exceeds limit");
    snap.daily_loss = Some(499);
    assert!(f.apply_filters(500, &snap).is_ok());

    // A failed store read fails closed.
    snap.daily_loss = None;
    assert!(matches!(f.apply_filters(500, &snap), Err(PipelineError::StoreUnavailable)));
}

#[test]
fn risk_hot_reload_rejects_non_positive() {
    let mut f = default_risk_filters();
    assert!(matches!(f.update_risk_limits(0, 10), Err(PipelineError::LimitUpdateRejected)));
    assert!(matches!(f.update_risk_limits(10, 0), Err(PipelineError::LimitUpdateRejected)));
    // Prior limits stay active after a rejected update.
    assert!(f.apply_filters(1_000_000_000, &StoreSnapshot::blank()).is_ok());
    // An accepted update takes effect.
    assert!(f.update_risk_limits(500, 400).is_ok());
    assert!(f.apply_filters(401, &StoreSnapshot::blank()).is_err());
    assert!(f.apply_filters(400, &StoreSnapshot::blank()).is_ok());
}

#[test]
fn executor_refuses_invalid_orders() {
    let e = default_executor();
    let symbol = "ETH/USD".to_string();
    assert!(e.begin_order(SignalKind::Buy, 500, &symbol).is_ok());
    assert!(matches!(
        e.begin_order(SignalKind::Buy, 0, &symbol),
        Err(PipelineError::InvalidOrder)
    ));
    assert!(matches!(
        e.begin_order(SignalKind::Sell, 500, &String::new()),
        Err(PipelineError::InvalidOrder)
    ));
    assert!(matches!(
        e.begin_order(SignalKind::Sell, 1_000_000_001, &symbol),
        Err(PipelineError::InvalidOrder)
    ));
}

#[test]
fn executor_records_success_and_failure() {
    let mut e = default_executor();
    let symbol = "ETH/USD".to_string();

    let ok = e.record_outcome(&symbol, SignalKind::Buy, 500, true, None, 12, WHEN);
    assert!(ok.success);
    assert_eq!(ok.symbol, "ETH/USD");
    assert!(ok.error.is_none());

    let failed = e.record_outcome(
        &symbol,
        SignalKind::Buy,
        500,
        false,
        Some("Symbol not supported".to_string()),
        30,
        WHEN + 1,
    );
    assert!(!failed.success);
    assert_eq!(failed.error.as_deref(), Some("Symbol not supported"));

    let stats = e.get_execution_stats(&symbol).expect("symbol must have stats");
    assert_eq!(stats.success_count, 1);
    assert_eq!(stats.failure_count, 1);
    // Only the successful dispatch feeds the running latency mean.
    assert_eq!(stats.latency_count, 1);
    assert_eq!(stats.latency_sum, 12);

    // The failure message landed in the bounded error log.
    assert_eq!(e.error_log.len(), 1);
    assert_eq!(e.error_log[0], "Symbol not supported");
}

#[test]
fn executor_error_log_is_bounded() {
    let mut e = default_executor();
    let symbol = "ETH/USD".to_string();
    for i in 0..105u64 {
        e.record_outcome(
            &symbol,
            SignalKind::Sell,
            1,
            false,
            Some(format!("failure {}", i)),
            1,
            WHEN,
        );
    }
    assert_eq!(e.error_log.len(), 100);
    // The oldest five were evicted.
    assert_eq!(e.error_log[0], "failure 5");
    assert_eq!(e.error_log[99], "failure 104");
}

#[test]
fn executor_tracks_symbols_independently() {
    let mut e = default_executor();
    let a = "ETH/USD".to_string();
    let b = "BTC/USD".to_string();
    e.record_outcome(&a, SignalKind::Buy, 1, true, None, 5, WHEN);
    e.record_outcome(&b, SignalKind::Buy, 1, true, None, 9, WHEN);
    e.record_outcome(&a, SignalKind::Buy, 1, true, None, 7, WHEN);

    let sa = e.get_execution_stats(&a).unwrap();
    assert_eq!(sa.success_count, 2);
    assert_eq!(sa.latency_sum, 12);
    let sb = e.get_execution_stats(&b).unwrap();
    assert_eq!(sb.success_count, 1);
    assert_eq!(sb.latency_sum, 9);
    assert!(e.get_execution_stats(&"XRP/USD".to_string()).is_none());

    let all = e.get_all_execution_stats();
    assert_eq!(all.len(), 2);
    assert_eq!(all[0].symbol, "ETH/USD");
    assert_eq!(all[1].symbol, "BTC/USD");
}

#[test]
fn pre_trade_checks_run_in_order() {
    let logic = ExecutionLogic::new(&ConfigLoader::execution_config(&RawConfig::empty()));
    let snap = StoreSnapshot::blank();

    assert!(logic.pre_trade_checks(&exec_signal(), &snap).is_ok());

    // An oversized order is the risk filters' veto, not the executor's.
    let mut big = exec_signal();
    big.size = 1_000_000_001;
    let err = logic.pre_trade_checks(&big, &snap).expect_err("oversized order must be vetoed");
    assert_eq!(err.message(), "Order size exceeds limit");

    // An empty symbol passes the risk filters but fails the executor's
    // final validity check.
    let mut anonymous = exec_signal();
    anonymous.symbol = String::new();
    assert!(matches!(
        logic.pre_trade_checks(&anonymous, &snap),
        Err(PipelineError::InvalidOrder)
    ));

    // A missing expected price reads as zero, on which the slippage gate
    // is vacuous.
    let mut quoteless = exec_signal();
    quoteless.expected_price = None;
    assert!(logic.pre_trade_checks(&quoteless, &snap).is_ok());

    // A recorded daily loss at the limit vetoes before anything else.
    let mut lossy = StoreSnapshot::blank();
    lossy.daily_loss = Some(500);
    let err = logic.pre_trade_checks(&exec_signal(), &lossy).expect_err("daily loss must veto");
    assert_eq!(err.message(), "Daily loss exceeds limit");
}

#[test]
fn pipeline_error_messages() {
    assert_eq!(PipelineError::InvalidOrder.message(), "Invalid order parameters");
    assert_eq!(PipelineError::LimitUpdateRejected.message(), "Invalid limit update");
    assert_eq!(PipelineError::StoreUnavailable.message(), "State store unavailable");
    assert_eq!(PipelineError::MissingField("Missing region".to_string()).message(), "Missing region");
    assert_eq!(PipelineError::CheckFailed("Region not allowed".to_string()).message(), "Region not allowed");
    assert_eq!(PipelineError::BrokerError("venue closed".to_string()).message(), "venue closed");
}
