//! A local task-scheduling and execution core.
//!
//! The library computes next run times for recurring triggers, applies
//! misfire and skip policy, gates concurrent dispatch behind singleton and
//! parallelism limits, and classifies the outcome of target processes.
//! Persistence, process spawning and platform probes live outside; the
//! library exchanges plain values with them.

pub mod civil;
pub mod conditions;
pub mod dispatch;
pub mod executor;
pub mod models;
pub mod runlog;
pub mod scheduler;
pub mod text;
