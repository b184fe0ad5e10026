//! Error taxonomy and the small value objects shared by the domain.
use vstd::prelude::*;
use vstd::std_specs::cmp::PartialEqSpecImpl;
use vstd::string::StringExecFns;
use crate::shared::text::joined;

verus! {

/// Failures that domain operations report.
#[derive(Debug)]
pub enum DomainError {
    /// A byte range or a numeric specification is malformed.
    InvalidRange,
    /// A job, an input image or an output artifact is missing.
    FileNotFound,
    /// A file's type is outside the allow-list.
    InvalidContentType,
    /// An operation was attempted in a state that does not permit it.
    InvalidState(String),
    /// A filesystem or subprocess failure, with its cause.
    IoError(String),
}

impl Clone for DomainError {
    fn clone(&self) -> (r: Self)
        ensures
            r == *self,
    {
        match self {
            DomainError::InvalidRange => DomainError::InvalidRange,
            DomainError::FileNotFound => DomainError::FileNotFound,
            DomainError::InvalidContentType => DomainError::InvalidContentType,
            DomainError::InvalidState(msg) => DomainError::InvalidState(msg.clone()),
            DomainError::IoError(msg) => DomainError::IoError(msg.clone()),
        }
    }
}

impl DomainError {
    /// The human-readable text of the error.
    pub open spec fn message_text(self) -> Seq<char> {
        match self {
            DomainError::InvalidRange => "Invalid range request"@,
            DomainError::FileNotFound => "File not found"@,
            DomainError::InvalidContentType => "Invalid content type"@,
            DomainError::InvalidState(msg) => "Invalid state: "@ + msg@,
            DomainError::IoError(msg) => "IO error: "@ + msg@,
        }
    }

    /// Renders the error as text.
    pub fn message(&self) -> (r: String)
        ensures
            r@ == self.message_text(),
    {
        match self {
            DomainError::InvalidRange => String::from_str("Invalid range request"),
            DomainError::FileNotFound => String::from_str("File not found"),
            DomainError::InvalidContentType => String::from_str("Invalid content type"),
            DomainError::InvalidState(msg) => joined("Invalid state: ", msg.as_str()),
            DomainError::IoError(msg) => joined("IO error: ", msg.as_str()),
        }
    }
}

/// Result type of domain operations.
pub type DomainResult<T> = Result<T, DomainError>;

/// Whether `s` names one of the video content types that can be served.
pub open spec fn is_video_content_type(s: Seq<char>) -> bool {
    s == "video/webm"@ || s == "video/mp4"@ || s == "video/x-msvideo"@ || s == "video/quicktime"@
        || s == "video/x-matroska"@
}

/// Value object: a supported video content type.
#[derive(Debug, Eq, Hash)]
pub struct ContentType(String);

impl PartialEq for ContentType {
    fn eq(&self, other: &Self) -> (r: bool) {
        self.0 == other.0
    }
}

impl PartialEqSpecImpl for ContentType {
    open spec fn obeys_eq_spec() -> bool {
        true
    }

    open spec fn eq_spec(&self, other: &Self) -> bool {
        self@ == other@
    }
}

impl View for ContentType {
    type V = Seq<char>;

    closed spec fn view(&self) -> Seq<char> {
        self.0@
    }
}

impl Clone for ContentType {
    fn clone(&self) -> (r: Self)
        ensures
            r@ == self@,
            r.is_valid(),
    {
        proof {
            use_type_invariant(self);
        }
        ContentType(self.0.clone())
    }
}

impl ContentType {
    #[verifier::type_invariant]
    closed spec fn well_formed(self) -> bool {
        is_video_content_type(self.0@)
    }

    /// Every value names a supported content type.
    pub open spec fn is_valid(self) -> bool {
        is_video_content_type(self@)
    }

    /// Accepts exactly the supported video content types.
    pub fn new(content_type: String) -> (r: DomainResult<Self>)
        ensures
            is_video_content_type(content_type@) ==> (r matches Ok(c) && c@ == content_type@
                && c.is_valid()),
            !is_video_content_type(content_type@) ==> r == Err::<Self, DomainError>(
                DomainError::InvalidContentType,
            ),
    {
        let s = content_type.as_str();
        if s.eq("video/webm") || s.eq("video/mp4") || s.eq("video/x-msvideo") || s.eq(
            "video/quicktime",
        ) || s.eq("video/x-matroska") {
            Ok(ContentType(content_type))
        } else {
            Err(DomainError::InvalidContentType)
        }
    }

    /// The content type as text.
    pub fn as_str(&self) -> (r: &str)
        ensures
            r@ == self@,
            is_video_content_type(r@),
    {
        proof {
            use_type_invariant(self);
        }
        self.0.as_str()
    }
}

/// Value object: a path in the file system, as written by the caller.
#[derive(Debug, Eq, Hash)]
pub struct FilePath(String);

impl PartialEq for FilePath {
    fn eq(&self, other: &Self) -> (r: bool) {
        self.0 == other.0
    }
}

impl PartialEqSpecImpl for FilePath {
    open spec fn obeys_eq_spec() -> bool {
        true
    }

    open spec fn eq_spec(&self, other: &Self) -> bool {
        self@ == other@
    }
}

impl View for FilePath {
    type V = Seq<char>;

    closed spec fn view(&self) -> Seq<char> {
        self.0@
    }
}

impl Clone for FilePath {
    fn clone(&self) -> (r: Self)
        ensures
            r@ == self@,
    {
        FilePath(self.0.clone())
    }
}

impl FilePath {
    /// Wraps a path; every text is accepted.
    pub fn new(path: String) -> (r: Self)
        ensures
            r@ == path@,
    {
        FilePath(path)
    }

    /// The path as text.
    pub fn as_str(&self) -> (r: &str)
        ensures
            r@ == self@,
    {
        self.0.as_str()
    }
}

/// Value object: an inclusive range of bytes within a file of known size.
#[derive(Debug, Clone, Copy, PartialEq, Eq, Structural)]
pub struct ByteRange {
    pub start: u64,
    pub end: u64,
    pub total_size: u64,
}

/// Whether `start..=end` lies within a file of `total_size` bytes.
pub open spec fn range_within(start: u64, end: u64, total_size: u64) -> bool {
    start <= end && end < total_size
}

impl ByteRange {
    /// Whether the range is ordered and lies within the file.
    pub open spec fn valid(self) -> bool {
        range_within(self.start, self.end, self.total_size)
    }

    /// Builds a range, rejecting one that is reversed or reaches past the
    /// end of the file.
    pub fn new(start: u64, end: u64, total_size: u64) -> (r: DomainResult<Self>)
        ensures
            range_within(start, end, total_size) ==> r == Ok::<Self, DomainError>(
                ByteRange { start, end, total_size },
            ),
            !range_within(start, end, total_size) ==> r == Err::<Self, DomainError>(
                DomainError::InvalidRange,
            ),
    {
        if start > end || end >= total_size || start >= total_size {
            return Err(DomainError::InvalidRange);
        }
        Ok(ByteRange { start, end, total_size })
    }

    /// The number of bytes in the range.
    pub fn size(&self) -> (r: u64)
        requires
            self.start <= self.end,
            self.end - self.start < u64::MAX,
        ensures
            r == self.end - self.start + 1,
    {
        self.end - self.start + 1
    }

    /// Whether the range is ordered and lies within the file.
    pub fn is_valid(&self) -> (r: bool)
        ensures
            r == self.valid(),
    {
        self.start <= self.end && self.end < self.total_size && self.start < self.total_size
    }
}

} // verus!
