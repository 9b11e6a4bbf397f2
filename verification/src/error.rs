//! The error taxonomy of the download engine, and the small integer mapping
//! exposed across the C-style boundary.

use vstd::prelude::*;

verus! {

/// Everything that can go wrong during a download.  Failures that originate
/// outside the engine (the HTTP client, the filesystem, the task runtime)
/// are carried as their diagnostic text.
#[derive(Debug)]
pub enum DownloadError {
    /// The underlying HTTP request or response failed.
    ReqwestError { msg: String },
    /// A filesystem operation failed.
    IoError { msg: String },
    /// The initial response carried no usable content-length header.
    NotGetFileSize { url: String },
    /// A write was attempted after the output file had been finalized.
    SaveFileFinish { path: String },
    /// The destination is a directory and the URL has no usable final
    /// path segment to derive a file name from.
    NotFileName { url: String },
    /// A response arrived with a non-success HTTP status.
    HttpStatusError { status: String },
    /// A spawned chunk task terminated abnormally rather than returning
    /// a result.
    JoinInError { msg: String },
}

impl DownloadError {
    /// The diagnostic integer assigned to each error kind.
    pub open spec fn spec_error_code(&self) -> i32 {
        match self {
            DownloadError::ReqwestError { .. } => 1,
            DownloadError::IoError { .. } => 2,
            DownloadError::NotGetFileSize { .. } => 3,
            DownloadError::SaveFileFinish { .. } => 4,
            DownloadError::NotFileName { .. } => 5,
            DownloadError::HttpStatusError { .. } => 6,
            DownloadError::JoinInError { .. } => 7,
        }
    }

    /// Maps the error to its diagnostic integer, one distinct positive code
    /// per kind.
    pub fn error_code(&self) -> (r: i32)
        ensures
            r == self.spec_error_code(),
    {
        match self {
            DownloadError::ReqwestError { .. } => 1,
            DownloadError::IoError { .. } => 2,
            DownloadError::NotGetFileSize { .. } => 3,
            DownloadError::SaveFileFinish { .. } => 4,
            DownloadError::NotFileName { .. } => 5,
            DownloadError::HttpStatusError { .. } => 6,
            DownloadError::JoinInError { .. } => 7,
        }
    }
}

/// The error surface of the foreign-function boundary: a download failure is
/// flattened to a single code beside the codes the binding layer itself needs.
#[derive(Clone, Copy, Debug, PartialEq, Eq, Structural)]
pub enum DownLoadFFIError {
    Success,
    NullPassed,
    Panic,
    DownError,
}

impl DownLoadFFIError {
    /// The integer each variant crosses the boundary as.
    pub open spec fn spec_code(&self) -> i32 {
        match self {
            DownLoadFFIError::Success => 0,
            DownLoadFFIError::NullPassed => 1,
            DownLoadFFIError::Panic => 2,
            DownLoadFFIError::DownError => 3,
        }
    }

    /// Returns the integer representation of this boundary error.
    pub fn code(&self) -> (r: i32)
        ensures
            r == self.spec_code(),
    {
        match self {
            DownLoadFFIError::Success => 0,
            DownLoadFFIError::NullPassed => 1,
            DownLoadFFIError::Panic => 2,
            DownLoadFFIError::DownError => 3,
        }
    }
}

impl From<DownloadError> for DownLoadFFIError {
    /// Every engine failure crosses the boundary as the single download
    /// error code.
    fn from(err: DownloadError) -> (r: Self) {
        DownLoadFFIError::DownError
    }
}

impl vstd::std_specs::convert::FromSpecImpl<DownloadError> for DownLoadFFIError {
    open spec fn obeys_from_spec() -> bool {
        true
    }

    open spec fn from_spec(err: DownloadError) -> Self {
        DownLoadFFIError::DownError
    }
}

} // verus!
