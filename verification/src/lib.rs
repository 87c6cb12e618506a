//! Durable state, review publication and scheduling for an autonomous
//! issue-to-pull-request daemon.

pub mod config;
pub mod digest;
pub mod error;
pub mod issue;
pub mod json;
pub mod link;
pub mod meta;
pub mod migrate;
pub mod ordered;
pub mod path;
pub mod poll;
pub mod prompt;
pub mod readiness;
pub mod repo;
pub mod retention;
pub mod review;
pub mod runtime;
pub mod scheduler;
pub mod state;
pub mod status;
pub mod text;
pub mod time;
pub mod validate;
pub mod verify;
pub mod worker;
pub mod yaml;
