use trade_gate::config::{
    ConfigLoader, RawConfig, DEFAULT_MAX_COMMISSION_PCT, DEFAULT_MAX_EXPOSURE,
    DEFAULT_MAX_LEVERAGE, DEFAULT_MAX_RISK_REWARD_RATIO, DEFAULT_MAX_SLIPPAGE_BPS,
    DEFAULT_MAX_TIME_DRIFT, DEFAULT_MAX_TIME_WINDOW, DEFAULT_MIN_LIQUIDITY_RATIO,
    DEFAULT_MIN_SL_RATIO,
};
use trade_gate::errors::PipelineError;
use trade_gate::signal::{Signal, SignalKind};
use trade_gate::store::StoreSnapshot;
use trade_gate::validators::ccc::{Compliance, Consistency, CostAnalysis};
use trade_gate::validators::market::{LiquidityValidator, TimeSensitivity};
use trade_gate::validators::risk::{RiskAssessor, StopLossChecker};
use trade_gate::validators::strategy::{GoalAlignment, StrategyFilter};

const T0: i64 = 1_700_000_000;

fn base_signal() -> Signal {
    Signal {
        symbol: "BTC/USD".to_string(),
        kind: SignalKind::Buy,
        size: 500,
        timestamp: T0,
        entry_price: Some(1_000_000),
        exit_price: Some(1_020_000),
        stop_loss: Some(980_000),
        take_profit: Some(1_020_000),
        expected_price: Some(1_000_000),
        leverage: Some(1),
        region: Some("US".to_string()),
    }
}

fn base_snapshot() -> StoreSnapshot {
    let mut snap = StoreSnapshot::blank();
    snap.market_timestamp = T0;
    snap.market_depth = 1_000_000;
    snap
}

fn message(r: Result<(), PipelineError>) -> String {
    r.expect_err("expected a rejection").message()
}

#[test]
fn defaults_match_documentation() {
    let c = ConfigLoader::validation_config(RawConfig::empty());
    assert_eq!(c.max_leverage, DEFAULT_MAX_LEVERAGE);
    assert_eq!(c.max_exposure, DEFAULT_MAX_EXPOSURE);
    assert_eq!(c.min_sl_ratio, DEFAULT_MIN_SL_RATIO);
    assert_eq!(c.max_time_window, DEFAULT_MAX_TIME_WINDOW);
    assert_eq!(c.max_time_drift, DEFAULT_MAX_TIME_DRIFT);
    assert_eq!(c.max_risk_reward_ratio, DEFAULT_MAX_RISK_REWARD_RATIO);
    assert_eq!(c.min_liquidity_ratio, DEFAULT_MIN_LIQUIDITY_RATIO);
    assert_eq!(c.max_commission_pct, DEFAULT_MAX_COMMISSION_PCT);
    assert_eq!(c.max_slippage_bps, DEFAULT_MAX_SLIPPAGE_BPS);
    assert_eq!(c.allowed_regions, vec!["US".to_string(), "EU".to_string()]);
}

#[test]
fn risk_rejects_excess_leverage() {
    let v = RiskAssessor::new(&ConfigLoader::validation_config(RawConfig::empty()));
    let mut sig = base_signal();
    sig.leverage = Some(11);
    assert_eq!(message(v.validate(&sig, &base_snapshot())), "Leverage exceeds limit");
    // At the leverage limit, and with 100 * 10 = 1000 exactly at the
    // exposure limit, the signal is admitted.
    sig.leverage = Some(10);
    sig.size = 100;
    assert!(v.validate(&sig, &base_snapshot()).is_ok());
}

#[test]
fn risk_rejects_excess_exposure() {
    let v = RiskAssessor::new(&ConfigLoader::validation_config(RawConfig::empty()));
    let sig = base_signal();
    let mut snap = base_snapshot();
    // 800 existing + 500 * 1 = 1300 > 1000.
    snap.portfolio_exposure = Some(800);
    assert_eq!(message(v.validate(&sig, &snap)), "Total exposure exceeds limit");
    // 500 existing + 500 * 1 = 1000, exactly at the limit: admitted.
    snap.portfolio_exposure = Some(500);
    assert!(v.validate(&sig, &snap).is_ok());
}

#[test]
fn risk_fails_closed_without_store() {
    let v = RiskAssessor::new(&ConfigLoader::validation_config(RawConfig::empty()));
    let mut snap = base_snapshot();
    snap.portfolio_exposure = None;
    assert!(matches!(
        v.validate(&base_signal(), &snap),
        Err(PipelineError::StoreUnavailable)
    ));
}

#[test]
fn stop_loss_ratio_boundary() {
    let v = StopLossChecker::new(&ConfigLoader::validation_config(RawConfig::empty()));
    let mut sig = base_signal();
    // entry 100, stop 99.5: ratio 0.005 < 0.01.
    sig.stop_loss = Some(995_000);
    assert_eq!(message(v.validate(&sig)), "Stop-loss ratio below minimum");
    // entry 100, stop 98: ratio 0.02 >= 0.01.
    sig.stop_loss = Some(980_000);
    assert!(v.validate(&sig).is_ok());
}

#[test]
fn stop_loss_missing_fields() {
    let v = StopLossChecker::new(&ConfigLoader::validation_config(RawConfig::empty()));
    let mut sig = base_signal();
    sig.stop_loss = None;
    assert!(matches!(v.validate(&sig), Err(PipelineError::MissingField(m)) if m == "Missing stop-loss"));
    let mut sig = base_signal();
    sig.entry_price = None;
    assert!(matches!(v.validate(&sig), Err(PipelineError::MissingField(m)) if m == "Missing entry price"));
}

#[test]
fn strategy_rejects_old_signal() {
    let v = StrategyFilter::new(&ConfigLoader::validation_config(RawConfig::empty()));
    let mut sig = base_signal();
    sig.timestamp = T0 - 301;
    assert_eq!(
        message(v.validate(&sig, &base_snapshot(), T0)),
        "Strategy timestamp exceeds window"
    );
    sig.timestamp = T0 - 300;
    assert!(v.validate(&sig, &base_snapshot(), T0).is_ok());
}

#[test]
fn strategy_rejects_non_positive_prices() {
    let v = StrategyFilter::new(&ConfigLoader::validation_config(RawConfig::empty()));
    let mut sig = base_signal();
    sig.exit_price = Some(0);
    assert_eq!(
        message(v.validate(&sig, &base_snapshot(), T0)),
        "Invalid entry or exit price"
    );
}

#[test]
fn strategy_rejects_duplicate() {
    let v = StrategyFilter::new(&ConfigLoader::validation_config(RawConfig::empty()));
    let sig = base_signal();
    let mut snap = base_snapshot();
    snap.signal_history.push(base_signal());
    assert_eq!(
        message(v.validate(&sig, &snap, T0)),
        "Duplicate strategy signal detected"
    );
    // A history entry differing in any attribute is no duplicate.
    snap.signal_history[0].size = 400;
    assert!(v.validate(&sig, &snap, T0).is_ok());
}

#[test]
fn goal_risk_reward_boundary() {
    let v = GoalAlignment::new(&ConfigLoader::validation_config(RawConfig::empty()));
    let mut sig = base_signal();
    // entry 100, stop 95 (risk 5), take-profit 112 (reward 12): 2.4 > 2.0.
    sig.stop_loss = Some(950_000);
    sig.take_profit = Some(1_120_000);
    assert_eq!(message(v.validate(&sig)), "Risk-reward ratio exceeds limit");
    // reward 10: ratio exactly 2.0 is admitted.
    sig.take_profit = Some(1_100_000);
    assert!(v.validate(&sig).is_ok());
}

#[test]
fn goal_rejects_zero_risk() {
    let v = GoalAlignment::new(&ConfigLoader::validation_config(RawConfig::empty()));
    let mut sig = base_signal();
    sig.stop_loss = Some(1_000_000);
    assert_eq!(message(v.validate(&sig)), "Invalid risk: stop-loss equals entry price");
}

#[test]
fn goal_missing_take_profit() {
    let v = GoalAlignment::new(&ConfigLoader::validation_config(RawConfig::empty()));
    let mut sig = base_signal();
    sig.take_profit = None;
    assert!(matches!(v.validate(&sig), Err(PipelineError::MissingField(m)) if m == "Missing take-profit"));
}

#[test]
fn liquidity_boundary() {
    let v = LiquidityValidator::new(&ConfigLoader::validation_config(RawConfig::empty()));
    let mut sig = base_signal();
    let mut snap = base_snapshot();
    // size 50,000 over depth 1,000,000 is exactly the 0.05 ratio: admitted.
    sig.size = 50_000;
    assert!(v.validate(&sig, &snap).is_ok());
    sig.size = 50_001;
    assert_eq!(message(v.validate(&sig, &snap)), "Liquidity ratio exceeds limit");
    // Unknown depth always rejects.
    snap.market_depth = 0;
    sig.size = 1;
    assert_eq!(message(v.validate(&sig, &snap)), "Liquidity ratio exceeds limit");
}

#[test]
fn time_sensitivity_drift() {
    let v = TimeSensitivity::new(&ConfigLoader::validation_config(RawConfig::empty()));
    let mut sig = base_signal();
    let snap = base_snapshot();
    sig.timestamp = T0 + 30;
    assert!(v.validate(&sig, &snap).is_ok());
    sig.timestamp = T0 + 31;
    assert_eq!(message(v.validate(&sig, &snap)), "Time drift exceeds limit");
    let mut unknown = base_snapshot();
    unknown.market_timestamp = 0;
    sig.timestamp = 0;
    assert_eq!(message(v.validate(&sig, &unknown)), "Time drift exceeds limit");
}

#[test]
fn compliance_checks_region_and_restrictions() {
    let v = Compliance::new(&ConfigLoader::validation_config(RawConfig::empty()));
    let snap = base_snapshot();

    let mut sig = base_signal();
    sig.region = None;
    assert!(matches!(v.validate(&sig, &snap), Err(PipelineError::MissingField(m)) if m == "Missing region"));

    let mut sig = base_signal();
    sig.region = Some("XX".to_string());
    assert_eq!(message(v.validate(&sig, &snap)), "Region not allowed");

    let sig = base_signal();
    let mut restricted = base_snapshot();
    restricted.restricted_symbols = Some(vec!["BTC/USD".to_string()]);
    assert_eq!(message(v.validate(&sig, &restricted)), "Symbol restricted in region");

    let mut unavailable = base_snapshot();
    unavailable.restricted_symbols = None;
    assert!(matches!(v.validate(&sig, &unavailable), Err(PipelineError::StoreUnavailable)));

    assert!(v.validate(&sig, &snap).is_ok());
}

#[test]
fn consistency_checks_positions_and_queue() {
    let v = Consistency::new();
    let sig = base_signal();

    let mut snap = base_snapshot();
    snap.open_position_kinds.push(SignalKind::Sell);
    assert_eq!(message(v.validate(&sig, &snap)), "Conflicting position detected");

    // A position in the same direction does not conflict.
    let mut snap = base_snapshot();
    snap.open_position_kinds.push(SignalKind::Buy);
    assert!(v.validate(&sig, &snap).is_ok());

    let mut snap = base_snapshot();
    snap.recent_signal_count = 10;
    assert_eq!(message(v.validate(&sig, &snap)), "Too many recent signals");
    snap.recent_signal_count = 9;
    assert!(v.validate(&sig, &snap).is_ok());
}

#[test]
fn cost_analysis_checks_commission_and_slippage() {
    let v = CostAnalysis::new(&ConfigLoader::validation_config(RawConfig::empty()));
    let sig = base_signal();

    let mut snap = base_snapshot();
    snap.commission_pct = 1_001;
    assert_eq!(message(v.validate(&sig, &snap)), "Commission exceeds limit");
    snap.commission_pct = 1_000;
    assert!(v.validate(&sig, &snap).is_ok());

    let mut snap = base_snapshot();
    snap.recorded_slippage_bps = 51;
    assert_eq!(message(v.validate(&sig, &snap)), "Slippage cost exceeds limit");
    snap.recorded_slippage_bps = 50;
    assert!(v.validate(&sig, &snap).is_ok());

    // With a zero notional both costs are zero, whatever the recorded
    // slippage: admitted.
    let mut zero = base_signal();
    zero.entry_price = Some(0);
    let mut snap = base_snapshot();
    snap.recorded_slippage_bps = 500;
    assert!(v.validate(&zero, &snap).is_ok());
}

#[test]
fn signal_equality_is_structural() {
    let a = base_signal();
    let mut b = base_signal();
    assert!(a.same_as(&b));
    b.expected_price = Some(999_999);
    assert!(!a.same_as(&b));
}
