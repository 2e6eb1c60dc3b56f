//! Reconstruction of a playable media file from a cached item directory:
//! the sidecar metadata, segment selection, header stripping, output naming,
//! the merge tool's command line and the per-item pipeline.

pub mod error;
pub mod locate;
pub mod merge;
pub mod metadata;
pub mod naming;
pub mod pipeline;
pub mod segment;
