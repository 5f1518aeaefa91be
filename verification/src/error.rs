//! Error taxonomy of the install pipeline. Every stage surfaces a distinct,
//! identifiable condition, so a caller can tell which stage failed.

use vstd::prelude::*;

verus! {

#[derive(Debug, Clone, PartialEq, Eq)]
pub enum InstallError {
    /// Selection left zero candidates for the requested platform.
    NoMatchingAsset { arch: String, os: String },
    /// Selection left more than one candidate; no tie-break is attempted.
    AmbiguousAssets { names: Vec<String> },
    /// The repository identifier holds no `/` separator.
    InvalidRepo { repo: String },
    /// The release-metadata lookup failed (network, missing release, rate limit).
    LookupFailed { message: String },
    /// The transfer itself failed; any partial file is left for a later resume.
    DownloadFailed { message: String },
    /// The downloaded file's size differs from the declared asset size.
    SizeMismatch { actual: u64, expected: u64 },
    /// Listing or extracting archive members failed for a reason other than a
    /// member already existing on disk.
    ExtractionFailed { message: String },
    /// No content type could be inferred for a link candidate.
    UnknownFileType { path: String },
    /// Publishing a symbolic link failed for a reason other than the link
    /// already existing.
    LinkFailed { message: String },
}

} // verus!
