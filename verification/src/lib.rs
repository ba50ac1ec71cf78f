//! Watches a region's vaccination sites for newly opened appointment slots.
//!
//! The crate holds the decisions of such a watcher: which sites of a fresh
//! poll carry a slot that the previous poll did not show, what the report on
//! them reads, and how one polling cycle follows the other. Fetching, mailing,
//! sleeping and reading the clock are left to the caller.

pub mod appointment;
pub mod civil;
pub mod laws;
pub mod location;
pub mod diff;
pub mod endpoint;
pub mod notify;
pub mod poll;
pub mod report;
pub mod schedule;
pub mod snapshot;
pub mod zips;
