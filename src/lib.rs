//! Correlation engine for process start/stop notifications: a table keyed by
//! process identifier, the per-stream ingestion logic that fills it, and the
//! error-aggregation policy that joins the ingestion workers.

pub mod time;
pub mod table;
pub mod ingest;
pub mod orchestrate;
pub mod laws;
pub mod report;
