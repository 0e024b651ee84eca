//! A parallel, resumable, bandwidth-governed bulk file downloader engine.
//!
//! The crate holds the verified core of the engine: range splitting,
//! token-bucket bandwidth accounting, retry policies for the presign
//! service and the object store, part-file merge, manifest scanning,
//! and the shared runtime counters. All I/O (HTTP, filesystem, timers)
//! is performed by the surrounding application, which feeds plain
//! values into these functions and acts on their decisions.

use vstd::prelude::*;

pub mod bandwidth;
pub mod download;
pub mod errors;
pub mod fetch;
pub mod jwtsign;
pub mod merge;
pub mod meta;
pub mod presign;
pub mod range;
pub mod reader;
pub mod runtime;
pub mod text;

verus! {

/// The fixed chunk size used to split a file into byte ranges: 5 MiB.
pub const CHUNK_SIZE: u64 = 5 * 1024 * 1024;

} // verus!
