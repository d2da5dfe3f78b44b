//! Lifecycle supervision for a single long-lived sidecar server process.
//!
//! The crate holds the decisions of the supervisor: which port the sidecar
//! binds, which command launches it, how its health endpoint is polled, how
//! it is shut down, and what the coordinator records. Every decision is a
//! function of plain values, so the caller performs the probes, spawns and
//! signals, and hands the library what it observed.

pub mod decimal;
pub mod health;
pub mod lifecycle;
pub mod locator;
pub mod platform;
pub mod port;
pub mod spawn;
pub mod terminate;
