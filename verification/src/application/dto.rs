//! Records exchanged with the callers of the application layer.
use vstd::prelude::*;
use vstd::string::StringExecFns;
use vstd::std_specs::convert::FromSpecImpl;
use crate::domain::common::ByteRange;
use crate::domain::video::{content_range_text, format_range, VideoMetadata};

verus! {

/// A request for a part of a video.
#[derive(Debug)]
pub struct StreamVideoRequest {
    pub video_id: String,
    pub range_header: Option<String>,
}

/// A part of a video, with the headers to serve it under.
#[derive(Debug)]
pub struct StreamVideoResponse {
    pub video_id: String,
    pub content_type: String,
    pub content_range: String,
    pub data: Vec<u8>,
}

/// What is known of a video. The playing time is in milliseconds.
#[derive(Debug)]
pub struct VideoMetadataResponse {
    pub video_id: String,
    pub total_size: u64,
    pub content_type: String,
    pub duration_millis: Option<u64>,
    pub bitrate: Option<u32>,
}

/// A request to open a streaming session.
#[derive(Debug)]
pub struct CreateSessionRequest {
    pub video_id: String,
    pub user_agent: String,
    pub ip_address: String,
}

/// The state of a streaming session.
#[derive(Debug)]
pub struct SessionResponse {
    pub session_id: String,
    pub video_id: String,
    pub state: String,
    pub metrics: SessionMetricsResponse,
}

/// What a streaming session has asked for so far.
#[derive(Debug, Clone, Copy, PartialEq, Eq, Structural)]
pub struct SessionMetricsResponse {
    pub bytes_requested: u64,
    pub chunks_requested: u64,
    pub pause_count: u32,
    pub duration_seconds: Option<u64>,
}

/// A request to turn images into a video.
#[derive(Debug)]
pub struct CreateVideoRequest {
    pub image_paths: Vec<String>,
    pub output_path: String,
    pub video_id: String,
    pub width: Option<u32>,
    pub height: Option<u32>,
    pub duration_per_image: Option<u32>,
}

/// What became of a request to turn images into a video. The time of
/// creation is in milliseconds since the epoch.
#[derive(Debug)]
pub struct CreateVideoResponse {
    pub job_id: String,
    pub video_id: String,
    pub status: String,
    pub total_frames: usize,
    pub estimated_duration: u32,
    pub created_at: String,
}

/// The state of a video-creation job. Times are in milliseconds since
/// the epoch.
#[derive(Debug)]
pub struct VideoCreationJobStatusResponse {
    pub job_id: String,
    pub video_id: String,
    pub status: String,
    pub progress: Option<VideoCreationProgressResponse>,
    pub created_at: String,
    pub completed_at: Option<String>,
    pub error_message: Option<String>,
    pub duration_seconds: Option<u64>,
}

/// How far a video-creation job has come. The percentage is in
/// hundredths of a percent.
#[derive(Debug, Clone, Copy, PartialEq, Eq, Structural)]
pub struct VideoCreationProgressResponse {
    pub current_frame: usize,
    pub total_frames: usize,
    pub percentage_basis_points: u128,
    pub estimated_time_remaining: Option<u64>,
}

impl From<VideoMetadata> for VideoMetadataResponse {
    /// The response for a video's metadata; the identifier is left
    /// empty for the caller to set.
    fn from(metadata: VideoMetadata) -> (r: Self)
        ensures
            r.video_id@ == Seq::<char>::empty(),
            r.total_size == metadata.total_size,
            r.content_type@ == metadata.content_type@,
            r.duration_millis == metadata.duration_millis,
            r.bitrate == metadata.bitrate,
    {
        VideoMetadataResponse {
            video_id: String::new(),
            total_size: metadata.total_size,
            content_type: String::from_str(metadata.content_type.as_str()),
            duration_millis: metadata.duration_millis,
            bitrate: metadata.bitrate,
        }
    }
}

impl FromSpecImpl<VideoMetadata> for VideoMetadataResponse {
    open spec fn obeys_from_spec() -> bool {
        false
    }

    open spec fn from_spec(metadata: VideoMetadata) -> Self {
        arbitrary()
    }
}

/// The value of the content-range header for a byte range.
pub fn range_header_value(range: ByteRange) -> (r: String)
    ensures
        r@ == content_range_text(range.start, range.end, range.total_size),
{
    format_range(range.start, range.end, range.total_size)
}

} // verus!
