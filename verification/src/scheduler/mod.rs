//! Scheduling: circuit breakers, leadership, fenced leases, and the worker
//! pool with its exclusion per repository.

pub mod circuit;
pub mod exclusion;
pub mod leadership;
pub mod leases;

pub mod pool;
