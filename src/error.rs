use vstd::prelude::*;

verus! {

/// The failures a refresh cycle can end with.
#[derive(Clone, Copy, Debug, PartialEq, Eq, Structural)]
pub enum PipelineError {
    /// No access key was configured.
    AuthMissing,
    /// The catalog could not be reached or answered with a non-success status.
    CatalogUnavailable,
    /// The catalog's answer lacks a required field or cannot be decoded.
    MalformedResponse,
    /// The image transfer failed.
    DownloadFailed,
    /// The store directory or the image file could not be prepared or written.
    StorageFailed,
    /// The downloaded file cannot be applied, or applying it failed.
    ApplyFailed,
}

} // verus!
