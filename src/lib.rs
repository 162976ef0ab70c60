//! A rate-controlled load generator engine: configuration checks, the
//! concurrency limiter, the outcome counters and the per-worker pacing, each
//! stated and proved as a state machine that a driver feeds with events.
pub mod config;
pub mod counters;
pub mod engine;
pub mod limiter;
pub mod pacing;
pub mod reply;
