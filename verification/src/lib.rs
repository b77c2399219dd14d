//! A single-endpoint proxy core for a user's contribution calendar.
//!
//! The library holds the verified heart of the service: the normalized
//! contribution data model, a time-windowed single-slot cache, and the
//! per-request coordinator that decides between serving the cached series
//! and refreshing it from upstream. HTTP plumbing, the network call and
//! JSON (de)serialization live outside the library and hand it plain values.

use vstd::prelude::*;

pub mod cache;
pub mod contributions;
pub mod coordinator;
pub mod laws;
pub mod render;
pub mod upstream;

verus! {

/// How long a fetched contribution series stays fresh: 12 hours in milliseconds.
pub const CACHE_TTL_MS: i64 = 43200000;

} // verus!
