//! Watches account balances on several kinds of chains and keeps the results
//! as gauge families that an observability pipeline can scrape.
//!
//! The crate holds the polling engine itself: the configuration model and its
//! validation rules, atomic-to-display unit scaling, the pagination walker
//! used for bulk ledger queries, the metrics state the monitors write into,
//! and the per-tick decision logic of one address monitor.  Network transport
//! and file I/O live outside the library and feed it plain values.
use vstd::prelude::*;

pub mod config;
pub mod error;
pub mod handle;
pub mod numeric;
pub mod query;
pub mod telemetry;

verus! {

/// Name of the configuration file, looked up beside the executable when no
/// path is given.
pub const DEFAULT_CONFIG_PATH: &'static str = "chains.toml";

} // verus!
