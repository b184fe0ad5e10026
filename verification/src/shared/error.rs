//! Errors of the video streaming service.
use vstd::prelude::*;
use vstd::string::StringExecFns;
use vstd::std_specs::convert::FromSpecImpl;
use crate::shared::paths::path_exists;
use crate::shared::text::joined;

verus! {

/// The error type of the standard library's I/O operations. Nothing is
/// known of what a value holds.
#[verifier::external_type_specification]
#[verifier::external_body]
pub struct ExIoError(std::io::Error);

/// Failures of the video streaming service.
#[derive(Debug)]
pub enum VideoStreamError {
    /// An I/O operation failed.
    IoError(std::io::Error),
    /// The requested range is malformed.
    InvalidRange,
    /// The video file is missing.
    FileNotFound,
    /// The file's type cannot be served.
    InvalidContentType,
}

/// Result type of video streaming operations.
pub type VideoResult<T> = Result<T, VideoStreamError>;

/// The text that an I/O error displays (its `Display` form through
/// `to_string`). It depends on the platform, so nothing is claimed of
/// it.
#[verifier::external_body]
fn io_error_text(err: &std::io::Error) -> (r: String) {
    err.to_string()
}

impl VideoStreamError {
    /// The human-readable text of an error that holds no I/O error.
    pub open spec fn plain_text(self) -> Seq<char> {
        match self {
            VideoStreamError::IoError(_) => "IO error: "@,
            VideoStreamError::InvalidRange => "Invalid range request"@,
            VideoStreamError::FileNotFound => "Video file not found"@,
            VideoStreamError::InvalidContentType => "Invalid content type"@,
        }
    }

    /// Renders the error as text: a fixed text for each kind, and for
    /// an I/O failure `IO error: ` followed by the text of its cause.
    pub fn message(&self) -> (r: String)
        ensures
            !(self is IoError) ==> r@ == self.plain_text(),
            self is IoError ==> r@.len() >= self.plain_text().len() && r@.subrange(
                0,
                self.plain_text().len() as int,
            ) == self.plain_text(),
    {
        match self {
            VideoStreamError::IoError(err) => {
                let cause = io_error_text(err);
                let r = joined("IO error: ", cause.as_str());
                r
            },
            VideoStreamError::InvalidRange => String::from_str("Invalid range request"),
            VideoStreamError::FileNotFound => String::from_str("Video file not found"),
            VideoStreamError::InvalidContentType => String::from_str("Invalid content type"),
        }
    }
}

impl From<std::io::Error> for VideoStreamError {
    fn from(err: std::io::Error) -> (r: Self) {
        VideoStreamError::IoError(err)
    }
}

impl FromSpecImpl<std::io::Error> for VideoStreamError {
    open spec fn obeys_from_spec() -> bool {
        true
    }

    open spec fn from_spec(err: std::io::Error) -> Self {
        VideoStreamError::IoError(err)
    }
}

/// Turns the failure of an I/O operation into that of the streaming
/// service; a success is handed on as it is.
pub fn map_io_error<T>(result: std::io::Result<T>) -> (r: VideoResult<T>)
    ensures
        result matches Ok(value) ==> r == Ok::<T, VideoStreamError>(value),
        result matches Err(err) ==> r == Err::<T, VideoStreamError>(VideoStreamError::IoError(err)),
{
    match result {
        Ok(value) => Ok(value),
        Err(err) => Err(VideoStreamError::from(err)),
    }
}

/// What a probe of a path comes to: success where something exists
/// there, and a missing file where nothing does.
pub fn check_presence(exists: bool) -> (r: VideoResult<()>)
    ensures
        exists ==> r is Ok,
        !exists ==> r matches Err(VideoStreamError::FileNotFound),
{
    if exists {
        Ok(())
    } else {
        Err(VideoStreamError::FileNotFound)
    }
}

/// Asks the file system whether something exists at `path`: the result
/// is success, or a missing file.
pub fn validate_file_path(path: &str) -> (r: VideoResult<()>)
    ensures
        r is Ok || r matches Err(VideoStreamError::FileNotFound),
{
    check_presence(path_exists(path))
}

} // verus!
