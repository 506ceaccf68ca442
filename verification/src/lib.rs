//! Multi-year projection of a recurring fund investment: contribution
//! schedule, cost structure, and a simplified model of German capital-gains
//! taxation (the yearly "Vorabpauschale" accrual tax plus the realization
//! tax due on sale).
//!
//! Monetary amounts and rates are fixed-point integers (see `fixed`), so
//! every computation is deterministic integer arithmetic and each
//! function's result is pinned by its contract.

pub mod adjust;
pub mod config;
pub mod engine;
pub mod fixed;
pub mod laws;
pub mod ledger;
pub mod tax;
