//! Command orchestration for a story-download tool.
//!
//! The crate parses a command line into one of three operations (fetch a
//! story, log in, log out), resolves the parameters the external retrieval
//! library needs (output directory, concurrency limit, requested metadata),
//! and owns the configuration of the long-lived HTTP session shared by all
//! operations.  Network and filesystem work happens in the retrieval
//! library; everything decided here is stated in contracts and verified.

pub mod args;
pub mod dispatch;
pub mod numbers;
pub mod session;
