//! Scheduling of Proof of History ticks: which strategy a configuration
//! selects, the per-tick time budget, the running totals of the realtime loop,
//! and the state machine that decides each step of the tick loop.
pub mod config;
pub mod metrics;
pub mod scheduler;
pub mod laws;
