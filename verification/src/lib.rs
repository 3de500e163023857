//! Admission-control and execution core of an automated trading engine.
//!
//! Every proposed trade signal passes a deterministic, ordered chain of
//! risk, compliance and market checks before it may be forwarded to order
//! execution; every execution is gated a second time close to dispatch,
//! measured, and folded into latency and outcome statistics.
//!
//! The crate holds the decision logic only. All collaborator I/O — the
//! shared state store, the inbound queues, the broker connection, the
//! clock — lives outside; callers read the state a decision needs, hand it
//! in as plain values, and perform the actions the decision calls for.
//! Prices, sizes and ratio thresholds are fixed-point integers (see
//! [`units`]), so every comparison here is exact.

pub mod config;
pub mod errors;
pub mod execution_logic;
pub mod executor;
pub mod latency;
pub mod orchestrator;
pub mod risk_filters;
pub mod router;
pub mod signal;
pub mod slippage;
pub mod store;
pub mod units;
pub mod validators;
