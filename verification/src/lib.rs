//! An in-memory record store for messages, keyed by a numeric identifier.
//!
//! The store offers four operations — create, update, delete, get — over a
//! single record type. Identifiers come from a monotonic allocator backed by
//! a durable counter cell; mutation is guarded by payload validation and by
//! single-owner authorization. The host supplies timestamps and the caller's
//! identity as plain values.

pub mod allocator;
pub mod error;
pub mod laws;
pub mod message;
pub mod store;
