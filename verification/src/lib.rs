//! Search-and-conditional-download pipeline.
//!
//! The library holds the verified core of a small search tool: building the
//! outbound request parameters, mapping raw API items into results, the
//! download allow-list policy, the per-item outcome accounting of the batch
//! downloader, and console rendering. Network and filesystem work stays with
//! the caller, which hands plain values in and takes plain values back.

pub mod batch;
pub mod config;
pub mod errors;
pub mod policy;
pub mod present;
pub mod query;
pub mod results;
