//! The admission checks.
//!
//! Each validator is one business-rule check against a signal, side-effect
//! free, optionally consulting the store snapshot. Each exposes the spec
//! functions its decision is stated with: `passes` says when the check
//! holds, `err_view` which message a failure carries.

pub mod ccc;
pub mod market;
pub mod risk;
pub mod strategy;
