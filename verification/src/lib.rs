//! Verified core of a query replay load generator.
//!
//! Workers replay recorded queries against a database target; an aggregator
//! merges their periodic batches into running totals and progress snapshots;
//! a log writer renders one line per executed query. The decision logic and
//! the state kept by each component live here with contracts; the async
//! plumbing (channels, timers, file and database I/O) drives them from
//! outside.

pub mod agent;
pub mod document;
pub mod logger;
pub mod recorder;
pub mod task;
