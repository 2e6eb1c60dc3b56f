use vstd::prelude::*;

verus! {

/// Why processing an item, or the whole run, failed.
#[derive(Debug, Clone, Copy, PartialEq, Eq, Structural)]
pub enum Error {
    /// A path argument had no file name.
    InvalidArgument,
    /// The merge tool could not be started.
    CommandNotFound,
    /// A directory could not be enumerated.
    ReadDirectoryFailed,
    /// The item's sidecar metadata file could not be read.
    MetadataMissing,
    /// The sidecar is not UTF-8 JSON with every required field of the right type.
    MetadataInvalid,
    /// The item holds no segment file.
    NoSegmentsFound,
    /// A segment is shorter than its client header.
    SegmentTooShort,
    /// A segment could not be read, or its fragment could not be written.
    SegmentIOFailure,
    /// The merge tool ran and reported failure.
    MergeFailed,
    /// A cover image or the sidecar copy could not be copied.
    AssetCopyFailed,
    /// The source item directory could not be removed.
    SourceCleanupFailed,
    /// The final output exists already and overwriting is not allowed.
    OutputExists,
}

} // verus!
