//! A high-throughput request-admission library.
//!
//! An admission request carries a 64-bit request id and three policy inputs
//! (identity key, license validity, abuse level). A pure hash perturbed by
//! those inputs routes the request to one of 32 shards and to one cell inside
//! that shard; the admission attempt claims the cell, performs a bounded unit
//! of work, and releases the cell again. A busy cell means a collision, which
//! is reported as `false` rather than retried.

pub mod capacity;
pub mod security;
pub mod shard;
pub mod slot;
pub mod table;
