//! Synchronises a local asset store with a remote manifest: whitelist
//! filtering, delta planning, the name-to-hash cache, download URLs, the
//! retry policy of a download, the batch barrier and archive unpacking.

pub mod text;
pub mod whitelist;
pub mod manifest;
pub mod cache;
pub mod plan;
pub mod retry;
pub mod batch;
pub mod archive;
