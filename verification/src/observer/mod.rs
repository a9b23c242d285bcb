//! The read-only observer: locating program events in transaction logs,
//! classifying them into operator alerts, rendering metrics, and judging
//! synchronisation readiness.
pub mod text;
pub mod alerts;
pub mod encoding;
pub mod logs;
pub mod records;
pub mod sync;
pub mod metrics;
pub mod projection;
pub mod history;
