//! Quota-aware fetcher for log objects in a remote object store.
//!
//! The library holds the verified core of the tool: building a query from
//! paginated listings, deciding whether the download fits the storage quota,
//! partitioning the query into batches for concurrent workers, replaying the
//! per-batch download loop, and aggregating worker results into the final
//! file list. All I/O (the object store, the filesystem, the terminal) lives
//! outside, in thin unverified glue that hands this library plain values.

pub mod aggregate;
pub mod buckets;
pub mod config;
pub mod errors;
pub mod fetch;
pub mod ini_profiles;
pub mod listing;
pub mod object;
pub mod output;
pub mod partition;
pub mod profiles;
pub mod query;
pub mod quota;
pub mod storage;
pub mod text;
pub mod worker;
