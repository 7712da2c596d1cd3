use vstd::prelude::*;

verus! {

/// Where the bytes of an upload come from.
#[derive(Debug)]
pub enum UploadSource {
    /// A local file, read from disk when the upload starts.
    FilePath(String),
    /// Inline text content, uploaded as its UTF-8 bytes.
    FileContent(String),
}

/// One upload request: a task id, a source and the destination key.
#[derive(Debug)]
pub struct File {
    pub id: String,
    pub source: UploadSource,
    pub remote_filename: String,
}

/// A file found while expanding a picked path.
#[derive(Debug)]
pub struct FileDetail {
    pub id: String,
    pub path: String,
    pub relative_path: String,
    pub is_dir: bool,
}

/// The latest known state of an upload task.
///
/// `speed` is in bytes per second; the fraction done is
/// `bytes_uploaded / total_bytes` and is left to the presentation layer.
#[derive(Debug, Clone, PartialEq, Eq)]
pub enum UploadStatus {
    Pending,
    Uploading { bytes_uploaded: u64, total_bytes: u64, speed: u64 },
    Success,
    Error { message: String, code: String },
    Cancelled,
}

impl UploadStatus {
    /// A terminal status ends the task: nothing follows it.
    pub open spec fn is_terminal_spec(&self) -> bool {
        match self {
            UploadStatus::Success | UploadStatus::Error { .. } | UploadStatus::Cancelled => true,
            _ => false,
        }
    }

    pub fn is_terminal(&self) -> (r: bool)
        ensures
            r == self.is_terminal_spec(),
    {
        match self {
            UploadStatus::Success | UploadStatus::Error { .. } | UploadStatus::Cancelled => true,
            _ => false,
        }
    }
}

/// The coarse code carried by every failed upload.
pub const UPLOAD_ERROR_CODE: &'static str = "UPLOAD_ERROR";

/// Whether `s` is the failure status with message `message` and the code
/// `UPLOAD_ERROR`.
pub open spec fn is_upload_error(s: UploadStatus, message: Seq<char>) -> bool {
    match s {
        UploadStatus::Error { message: m, code } => m@ == message && code@ == UPLOAD_ERROR_CODE@,
        _ => false,
    }
}

/// The terminal status of a failed upload.
pub fn error_status(message: String) -> (r: UploadStatus)
    ensures
        is_upload_error(r, message@),
{
    UploadStatus::Error { message, code: UPLOAD_ERROR_CODE.to_string() }
}

/// A status update as pushed to an observer.
#[derive(Debug, Clone)]
pub struct UploadProgress {
    pub file_id: String,
    pub filename: String,
    pub url: String,
    pub status: UploadStatus,
    pub timestamp: u64,
}

/// A part of a multipart session that the store has accepted.
#[derive(Debug, Clone)]
pub struct CompletedPart {
    pub part_number: u64,
    pub e_tag: String,
}

} // verus!
