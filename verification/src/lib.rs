//! Finds the failed CI jobs of a user's open merge requests and plans the
//! retrieval of their traces.
//!
//! The crate holds the decisions of that pipeline and none of its I/O: it
//! selects the merge requests of interest from a decoded response, derives the
//! requests to send, and tells the caller after each response what to do next.

pub mod config;
pub mod filter;
pub mod model;
pub mod request;
pub mod retrieve;
pub mod text;
