//! Hooks that the daemon calls at fixed points.

pub mod audit;
