//! The download failure taxonomy: one variant per pipeline stage, each
//! carrying the underlying cause, plus the rendering used at the outer
//! boundary, which keeps both the stage tag and the cause visible.

use vstd::prelude::*;
use vstd::string::*;
use crate::text::decimal_of;
use crate::text::push_decimal;

verus! {

/// Why a download failed, tagged with the stage that failed.
#[derive(Debug, PartialEq, Eq)]
pub enum DownloadError {
    /// The GET request could not be sent at all.
    Transport { detail: String },
    /// A response arrived, but its status code was not in the 2xx range.
    Status { code: u16 },
    /// The destination directory was missing and could not be created.
    Directory { detail: String },
    /// The destination file could not be opened for writing.
    FileCreate { detail: String },
    /// The body stream failed mid-transfer.
    StreamRead { detail: String },
    /// A disk write failed mid-transfer.
    Write { detail: String },
}

/// The diagnostic text for an error: its stage tag followed by the
/// underlying cause.
pub open spec fn message_of(e: DownloadError) -> Seq<char> {
    match e {
        DownloadError::Transport { detail } => "request failed: "@ + detail@,
        DownloadError::Status { code } => "non-success status code: "@ + decimal_of(code as nat),
        DownloadError::Directory { detail } => "failed to create directory: "@ + detail@,
        DownloadError::FileCreate { detail } => "failed to create file: "@ + detail@,
        DownloadError::StreamRead { detail } => "error during download: "@ + detail@,
        DownloadError::Write { detail } => "failed to write file: "@ + detail@,
    }
}

impl DownloadError {
    /// Renders the error as a human-readable string: stage tag, then cause.
    pub fn message(&self) -> (r: String)
        ensures
            r@ == message_of(*self),
    {
        match self {
            DownloadError::Transport { detail } => {
                String::from_str("request failed: ").concat(detail.as_str())
            },
            DownloadError::Status { code } => {
                let mut s = String::from_str("non-success status code: ");
                push_decimal(&mut s, *code);
                s
            },
            DownloadError::Directory { detail } => {
                String::from_str("failed to create directory: ").concat(detail.as_str())
            },
            DownloadError::FileCreate { detail } => {
                String::from_str("failed to create file: ").concat(detail.as_str())
            },
            DownloadError::StreamRead { detail } => {
                String::from_str("error during download: ").concat(detail.as_str())
            },
            DownloadError::Write { detail } => {
                String::from_str("failed to write file: ").concat(detail.as_str())
            },
        }
    }
}

} // verus!
