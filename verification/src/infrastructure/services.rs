//! Streaming of video files.
use vstd::prelude::*;
use crate::domain::common::{ByteRange, DomainResult};
use crate::domain::video::{RangeRequest, Video, VideoChunk, VideoMetadata};

verus! {

/// Serves videos from files. Reading the file is left to the caller;
/// this service says how much to read and frames what was read.
pub struct FileVideoStreamingService;

impl FileVideoStreamingService {
    /// The service.
    pub fn new() -> (r: Self) {
        FileVideoStreamingService
    }

    /// The number of bytes to read for `range`, or `None` where that
    /// number does not fit in memory.
    pub fn chunk_size(&self, range: &ByteRange) -> (r: Option<usize>)
        requires
            range.start <= range.end,
            range.end - range.start < u64::MAX,
        ensures
            range.end - range.start + 1 <= usize::MAX ==> r == Some(
                (range.end - range.start + 1) as usize,
            ),
            range.end - range.start + 1 > usize::MAX ==> r is None,
    {
        let size: u64 = range.size();
        if size <= usize::MAX as u64 {
            Some(size as usize)
        } else {
            None
        }
    }

    /// The chunk for `range` from the bytes that were read for it: the
    /// bytes are cut to the length of the range where more were read.
    pub fn frame_chunk(&self, video: &Video, range: &ByteRange, data: Vec<u8>) -> (r: VideoChunk)
        requires
            range.start <= range.end,
            range.end - range.start < u64::MAX,
        ensures
            r.range == (RangeRequest {
                start: range.start,
                end: range.end,
                total_size: range.total_size,
            }),
            data@.len() <= range.end - range.start + 1 ==> r.data@ == data@,
            data@.len() > range.end - range.start + 1 ==> r.data@ == data@.subrange(
                0,
                range.end - range.start + 1,
            ),
    {
        let mut kept = data;
        let read = kept.len();
        match self.chunk_size(range) {
            Some(size) => {
                if read > size {
                    kept.truncate(size);
                }
            },
            None => {},
        }
        VideoChunk::new(video.id.clone(), *range, kept)
    }

    /// What is known of `video`: a copy of its metadata.
    pub fn get_metadata(&self, video: &Video) -> (r: DomainResult<VideoMetadata>)
        ensures
            r matches Ok(metadata) && metadata.total_size == video.metadata.total_size
                && metadata.content_type@ == video.metadata.content_type@
                && metadata.duration_millis == video.metadata.duration_millis && metadata.bitrate
                == video.metadata.bitrate,
    {
        Ok(video.metadata.clone())
    }
}

} // verus!
