//! A content-addressed cache store: the verified logic that sits between a
//! host-language binding and the `cacache` on-disk engine.
//!
//! The library decides what a write asks of the engine, names and ranks hash
//! algorithms, reads and writes digest strings, classifies failures, and turns
//! index entries into plain records. The disk work itself is done by `cacache`.

pub mod algorithm;
pub mod digest;
pub mod error;
pub mod record;
pub mod tags;
pub mod write;

pub use algorithm::HashAlgorithm;
pub use digest::{Digest, DigestHash};
pub use error::{CacheError, StoreFailure};
pub use record::{list_records, metadata_record, Entry, Metadata};
pub use write::{plan_write, WriteOptions, WritePlan};
