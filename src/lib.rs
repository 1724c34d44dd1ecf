//! A storage coordinator that binds a local document store to a remote
//! collaboration peer.
//!
//! The library holds the decisions of the coordinator, each with a contract:
//! the lifecycle of a storage handle ([`storage`]), the establishment of a
//! synced session and the observer that persists local mutations
//! ([`sync`]), the all-or-nothing reassembly of chunked blobs ([`blob`]) and
//! the error model shared by all of them ([`error`]). The asynchronous store,
//! the sync-protocol client and the document engine are driven by the caller,
//! which hands their outcomes to these functions as plain values.

pub mod blob;
pub mod error;
pub mod storage;
pub mod sync;
