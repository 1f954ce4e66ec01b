//! Disposable PostgreSQL environments for tests.
//!
//! The crate holds the decisions behind two scoped resources: a throwaway
//! server in a container, and a throwaway database with its own login role
//! inside a running server. Each is a state machine that is told what the
//! outside world answered and says what to do next, so that teardown is
//! ordered, always attempted, and never hides an earlier failure.

pub mod database;
pub mod error;
pub mod naming;
pub mod params;
pub mod server;
pub mod sql;
