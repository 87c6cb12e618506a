//! Durable state: the issue queue and its claims, daemon metadata,
//! checkpoints, container runs, and the review stores.

pub mod checkpoints;
pub mod columns;
pub mod migrate_to_sqlite;
pub mod oci_run;
pub mod queue;
pub mod retention;
pub mod review;
pub mod store;
