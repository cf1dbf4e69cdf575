//! Translation of cluster resource snapshots into canonical fact records,
//! and a transactional fact store with upsert-by-identity semantics.
//!
//! The library's layers:
//! - `resource` models the raw, partially populated resource descriptions
//!   (workload units and hosts) as they arrive from a cluster change stream;
//! - `facts` is the canonical fact schema handed to the rule engine;
//! - `common`, `pod` and `node` hold the translator: total, pure functions
//!   from resources to facts that preserve field presence and absence exactly;
//! - `store` is the transaction manager: it applies a batch of fact updates
//!   as one atomic operation and reports the resulting delta;
//! - `laws` states and proves the library's cross-cutting guarantees.

pub mod common;
pub mod facts;
pub mod kv;
pub mod laws;
pub mod node;
pub mod pod;
pub mod resource;
pub mod store;
