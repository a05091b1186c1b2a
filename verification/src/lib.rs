//! Per-task runtime metrics, aggregated from a stream of lifecycle events.
//!
//! Instrumented call sites report when a task is spawned, entered, exited and
//! closed. The events travel through a bounded queue to a single collector,
//! which folds them into per-task statistics and lists one record per task on
//! every tick.

pub mod channel;
pub mod collector;
pub mod event;
pub mod laws;
pub mod model;
pub mod stats;
pub mod subscriber;
pub mod time;
