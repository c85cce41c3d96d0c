//! Threshold-detection and alert-delivery engine for a universe monitor.
//!
//! Two pollers fetch snapshots of remote state (an indexed event log and a
//! ledger), a pure evaluator compares each snapshot with persisted
//! high-water marks and turns newly crossed thresholds into alert texts,
//! and a delivery pump drains the resulting queue strictly in order.
//! Everything that decides or formats lives here, verified; fetching,
//! persistence and delivery are left to the surrounding binary.

pub mod evaluator;
pub mod graph;
pub mod laws;
pub mod messages;
pub mod node;
pub mod state;
pub mod twitter;
