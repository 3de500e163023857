//! Typed configuration with explicit defaults.
//!
//! Components receive a typed structure with named fields; an option a
//! deployment leaves unset falls back to its documented default rather
//! than failing. Ratio thresholds are scaled by [`crate::units::SCALE`]
//! (so `0.01` is stored as `100`); windows and drifts are seconds;
//! slippage limits are whole basis points.

use vstd::prelude::*;
use vstd::string::StringExecFns;

verus! {

pub const DEFAULT_MAX_LEVERAGE: u64 = 10;

/// `0.1`, scaled.
pub const DEFAULT_MAX_EXPOSURE: u64 = 1_000;

/// `0.01`, scaled.
pub const DEFAULT_MIN_SL_RATIO: u64 = 100;

/// Seconds.
pub const DEFAULT_MAX_TIME_WINDOW: u64 = 300;

/// Seconds.
pub const DEFAULT_MAX_TIME_DRIFT: u64 = 30;

/// `2.0`, scaled.
pub const DEFAULT_MAX_RISK_REWARD_RATIO: u64 = 20_000;

/// `0.05`, scaled.
pub const DEFAULT_MIN_LIQUIDITY_RATIO: u64 = 500;

/// `0.1`, scaled.
pub const DEFAULT_MAX_COMMISSION_PCT: u64 = 1_000;

/// Whole basis points.
pub const DEFAULT_MAX_SLIPPAGE_BPS: u64 = 50;

/// `100000.0`, scaled.
pub const DEFAULT_MAX_ORDER_SIZE: u64 = 1_000_000_000;

/// `0.05`, scaled.
pub const DEFAULT_MAX_DAILY_LOSS: u64 = 500;

/// Milliseconds.
pub const DEFAULT_LATENCY_THRESHOLD_MS: u64 = 100;

/// Raw options as a deployment supplies them; `None` means unset.
pub struct RawConfig {
    pub max_leverage: Option<u64>,
    pub max_exposure: Option<u64>,
    pub min_sl_ratio: Option<u64>,
    pub max_time_window: Option<u64>,
    pub max_time_drift: Option<u64>,
    pub max_risk_reward_ratio: Option<u64>,
    pub min_liquidity_ratio: Option<u64>,
    pub max_commission_pct: Option<u64>,
    pub max_slippage_bps: Option<u64>,
    pub max_order_size: Option<u64>,
    pub max_daily_loss: Option<u64>,
    pub latency_threshold_ms: Option<u64>,
    pub allowed_regions: Option<Vec<String>>,
}

/// Thresholds the validation pipeline reads.
pub struct ValidationConfig {
    pub max_leverage: u64,
    pub max_exposure: u64,
    pub min_sl_ratio: u64,
    pub max_time_window: u64,
    pub max_time_drift: u64,
    pub max_risk_reward_ratio: u64,
    pub min_liquidity_ratio: u64,
    pub max_commission_pct: u64,
    pub max_slippage_bps: u64,
    pub allowed_regions: Vec<String>,
}

/// Thresholds the execution pipeline reads.
pub struct ExecutionConfig {
    pub max_order_size: u64,
    pub max_daily_loss: u64,
    pub max_slippage_bps: u64,
    pub latency_threshold_ms: u64,
}

pub open spec fn or_default(o: Option<u64>, d: u64) -> u64 {
    match o {
        Some(v) => v,
        None => d,
    }
}

fn resolve(o: Option<u64>, d: u64) -> (r: u64)
    ensures
        r == or_default(o, d),
{
    match o {
        Some(v) => v,
        None => d,
    }
}

/// The regions the compliance check admits when none are configured.
pub open spec fn default_regions() -> Seq<Seq<char>> {
    seq!["US"@, "EU"@]
}

impl RawConfig {
    /// Every option unset: each component then runs on its defaults.
    pub fn empty() -> (r: RawConfig)
        ensures
            r.max_leverage is None,
            r.max_exposure is None,
            r.min_sl_ratio is None,
            r.max_time_window is None,
            r.max_time_drift is None,
            r.max_risk_reward_ratio is None,
            r.min_liquidity_ratio is None,
            r.max_commission_pct is None,
            r.max_slippage_bps is None,
            r.max_order_size is None,
            r.max_daily_loss is None,
            r.latency_threshold_ms is None,
            r.allowed_regions is None,
    {
        RawConfig {
            max_leverage: None,
            max_exposure: None,
            min_sl_ratio: None,
            max_time_window: None,
            max_time_drift: None,
            max_risk_reward_ratio: None,
            min_liquidity_ratio: None,
            max_commission_pct: None,
            max_slippage_bps: None,
            max_order_size: None,
            max_daily_loss: None,
            latency_threshold_ms: None,
            allowed_regions: None,
        }
    }
}

/// Resolves raw options into the typed structures, applying defaults once
/// at startup.
pub struct ConfigLoader;

impl ConfigLoader {
    pub fn validation_config(raw: RawConfig) -> (c: ValidationConfig)
        ensures
            c.max_leverage == or_default(raw.max_leverage, DEFAULT_MAX_LEVERAGE),
            c.max_exposure == or_default(raw.max_exposure, DEFAULT_MAX_EXPOSURE),
            c.min_sl_ratio == or_default(raw.min_sl_ratio, DEFAULT_MIN_SL_RATIO),
            c.max_time_window == or_default(raw.max_time_window, DEFAULT_MAX_TIME_WINDOW),
            c.max_time_drift == or_default(raw.max_time_drift, DEFAULT_MAX_TIME_DRIFT),
            c.max_risk_reward_ratio == or_default(
                raw.max_risk_reward_ratio,
                DEFAULT_MAX_RISK_REWARD_RATIO,
            ),
            c.min_liquidity_ratio == or_default(
                raw.min_liquidity_ratio,
                DEFAULT_MIN_LIQUIDITY_RATIO,
            ),
            c.max_commission_pct == or_default(raw.max_commission_pct, DEFAULT_MAX_COMMISSION_PCT),
            c.max_slippage_bps == or_default(raw.max_slippage_bps, DEFAULT_MAX_SLIPPAGE_BPS),
            raw.allowed_regions matches Some(v) ==> c.allowed_regions == v,
            raw.allowed_regions is None ==> c.allowed_regions.deep_view() == default_regions(),
    {
        let allowed_regions: Vec<String> = match raw.allowed_regions {
            Some(v) => v,
            None => {
                let mut v: Vec<String> = Vec::new();
                v.push(String::from_str("US"));
                v.push(String::from_str("EU"));
                proof {
                    assert(v.deep_view() =~= default_regions());
                }
                v
            },
        };
        ValidationConfig {
            max_leverage: resolve(raw.max_leverage, DEFAULT_MAX_LEVERAGE),
            max_exposure: resolve(raw.max_exposure, DEFAULT_MAX_EXPOSURE),
            min_sl_ratio: resolve(raw.min_sl_ratio, DEFAULT_MIN_SL_RATIO),
            max_time_window: resolve(raw.max_time_window, DEFAULT_MAX_TIME_WINDOW),
            max_time_drift: resolve(raw.max_time_drift, DEFAULT_MAX_TIME_DRIFT),
            max_risk_reward_ratio: resolve(
                raw.max_risk_reward_ratio,
                DEFAULT_MAX_RISK_REWARD_RATIO,
            ),
            min_liquidity_ratio: resolve(raw.min_liquidity_ratio, DEFAULT_MIN_LIQUIDITY_RATIO),
            max_commission_pct: resolve(raw.max_commission_pct, DEFAULT_MAX_COMMISSION_PCT),
            max_slippage_bps: resolve(raw.max_slippage_bps, DEFAULT_MAX_SLIPPAGE_BPS),
            allowed_regions,
        }
    }

    pub fn execution_config(raw: &RawConfig) -> (c: ExecutionConfig)
        ensures
            c.max_order_size == or_default(raw.max_order_size, DEFAULT_MAX_ORDER_SIZE),
            c.max_daily_loss == or_default(raw.max_daily_loss, DEFAULT_MAX_DAILY_LOSS),
            c.max_slippage_bps == or_default(raw.max_slippage_bps, DEFAULT_MAX_SLIPPAGE_BPS),
            c.latency_threshold_ms == or_default(
                raw.latency_threshold_ms,
                DEFAULT_LATENCY_THRESHOLD_MS,
            ),
    {
        ExecutionConfig {
            max_order_size: resolve(raw.max_order_size, DEFAULT_MAX_ORDER_SIZE),
            max_daily_loss: resolve(raw.max_daily_loss, DEFAULT_MAX_DAILY_LOSS),
            max_slippage_bps: resolve(raw.max_slippage_bps, DEFAULT_MAX_SLIPPAGE_BPS),
            latency_threshold_ms: resolve(
                raw.latency_threshold_ms,
                DEFAULT_LATENCY_THRESHOLD_MS,
            ),
        }
    }
}

} // verus!
