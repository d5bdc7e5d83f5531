//! A single-file response cache with TTL-based freshness classification and
//! cache-versus-network arbitration.
//!
//! The library owns the decision logic: how a cached file's age is classified
//! against a time-to-live threshold, and which payload a run should return
//! (and persist) given that classification and the outcome of at most one
//! network fetch. All filesystem and network traffic is performed by the
//! surrounding application, which hands this library plain values.

pub mod api;
pub mod arbiter;
pub mod cache;
pub mod present;
