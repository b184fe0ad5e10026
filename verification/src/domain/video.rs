//! Videos, byte-range requests and content types of video files.
use vstd::prelude::*;
use vstd::std_specs::cmp::PartialEqSpecImpl;
use vstd::string::StringExecFns;
use vstd::string::StrSliceExecFns;
use crate::domain::common::{ByteRange, ContentType, DomainError, DomainResult, FilePath};
use crate::shared::paths::{extension_of, path_extension};
use crate::shared::text::{append_decimal, decimal, parse_u64, parse_u64_spec, slice_text};

verus! {

/// Entity: the identifier of a video.
#[derive(Debug, Eq, Hash)]
pub struct VideoId(String);

impl PartialEq for VideoId {
    fn eq(&self, other: &Self) -> (r: bool) {
        self.0 == other.0
    }
}

impl PartialEqSpecImpl for VideoId {
    open spec fn obeys_eq_spec() -> bool {
        true
    }

    open spec fn eq_spec(&self, other: &Self) -> bool {
        self@ == other@
    }
}

impl View for VideoId {
    type V = Seq<char>;

    closed spec fn view(&self) -> Seq<char> {
        self.0@
    }
}

impl Clone for VideoId {
    fn clone(&self) -> (r: Self)
        ensures
            r@ == self@,
    {
        VideoId(self.0.clone())
    }
}

impl VideoId {
    /// Wraps an identifier; every text is accepted.
    pub fn new(id: String) -> (r: Self)
        ensures
            r@ == id@,
    {
        VideoId(id)
    }

    /// The identifier as text.
    pub fn as_str(&self) -> (r: &str)
        ensures
            r@ == self@,
    {
        self.0.as_str()
    }
}

/// The content type served for a video file with the extension
/// `extension`, if there is one. Extensions are told apart by case.
pub open spec fn video_type_of(extension: Option<Seq<char>>) -> Option<Seq<char>> {
    match extension {
        Some(ext) => if ext == "webm"@ {
            Some("video/webm"@)
        } else if ext == "mp4"@ {
            Some("video/mp4"@)
        } else if ext == "avi"@ {
            Some("video/x-msvideo"@)
        } else if ext == "mov"@ {
            Some("video/quicktime"@)
        } else if ext == "mkv"@ {
            Some("video/x-matroska"@)
        } else {
            None
        },
        None => None,
    }
}

/// The content type of any other file.
pub open spec fn fallback_content_type() -> Seq<char> {
    "application/octet-stream"@
}

/// The content type served for a video file with the extension
/// `extension`, if there is one.
pub fn video_type_for_extension(extension: Option<&str>) -> (r: Option<&'static str>)
    ensures
        slice_text(r) == video_type_of(slice_text(extension)),
{
    match extension {
        Some(ext) => {
            if ext.eq("webm") {
                Some("video/webm")
            } else if ext.eq("mp4") {
                Some("video/mp4")
            } else if ext.eq("avi") {
                Some("video/x-msvideo")
            } else if ext.eq("mov") {
                Some("video/quicktime")
            } else if ext.eq("mkv") {
                Some("video/x-matroska")
            } else {
                None
            }
        },
        None => None,
    }
}

/// The content type to serve a file with, from the extension of its
/// name: that of the video type, or the fallback for any other file.
pub open spec fn served_type(extension: Option<Seq<char>>) -> Seq<char> {
    match video_type_of(extension) {
        Some(video_type) => video_type,
        None => fallback_content_type(),
    }
}

/// The content type to serve a file with, from the extension of its
/// name: that of the video type, or the fallback for any other file.
pub fn content_type_for_extension(extension: Option<&str>) -> (r: String)
    ensures
        r@ == served_type(slice_text(extension)),
{
    match video_type_for_extension(extension) {
        Some(video_type) => String::from_str(video_type),
        None => String::from_str("application/octet-stream"),
    }
}

/// The content type to serve the file at `file_path` with: that of the
/// video type that the extension of its name stands for, or the
/// fallback for any other file.
pub fn infer_content_type(file_path: &str) -> (r: String)
    ensures
        r@ == served_type(extension_of(file_path@)),
{
    let extension = path_extension(file_path);
    match &extension {
        Some(ext) => content_type_for_extension(Some(ext.as_str())),
        None => content_type_for_extension(None),
    }
}

/// Value object: what is known of a video file. The playing time is in
/// milliseconds, the bit rate in bits per second.
#[derive(Debug)]
pub struct VideoMetadata {
    pub total_size: u64,
    pub content_type: ContentType,
    pub duration_millis: Option<u64>,
    pub bitrate: Option<u32>,
}

impl Clone for VideoMetadata {
    fn clone(&self) -> (r: Self)
        ensures
            r.total_size == self.total_size,
            r.content_type@ == self.content_type@,
            r.duration_millis == self.duration_millis,
            r.bitrate == self.bitrate,
    {
        VideoMetadata {
            total_size: self.total_size,
            content_type: self.content_type.clone(),
            duration_millis: self.duration_millis,
            bitrate: self.bitrate,
        }
    }
}

impl VideoMetadata {
    /// The metadata of a file of `total_size` bytes and the given type,
    /// with playing time and bit rate unknown.
    pub fn new(total_size: u64, content_type: ContentType) -> (r: Self)
        ensures
            r == (VideoMetadata { total_size, content_type, duration_millis: None, bitrate: None }),
    {
        VideoMetadata { total_size, content_type, duration_millis: None, bitrate: None }
    }

    /// The content type of a video file with the extension `extension`;
    /// any other file has an invalid content type.
    pub fn content_type_of(extension: Option<&str>) -> (r: DomainResult<ContentType>)
        ensures
            video_type_of(slice_text(extension)) matches Some(video_type) ==> (r matches Ok(c)
                && c@ == video_type),
            video_type_of(slice_text(extension)) is None ==> r matches Err(
                DomainError::InvalidContentType,
            ),
    {
        match video_type_for_extension(extension) {
            Some(video_type) => ContentType::new(String::from_str(video_type)),
            None => Err(DomainError::InvalidContentType),
        }
    }

    /// The metadata of the file at `file_path` from what a probe of the
    /// file system found: whether the file exists, and its size or the
    /// cause for which the size cannot be had. A file that does not
    /// exist is not found; a size that cannot be had is an I/O failure
    /// with its cause; a file whose name does not end in the extension
    /// of a video type has an invalid content type. Any other file has
    /// the size found and the content type of its extension, with
    /// playing time and bit rate unknown.
    pub fn from_probe(file_path: &FilePath, exists: bool, size: Result<u64, String>) -> (r:
        DomainResult<Self>)
        ensures
            !exists ==> r matches Err(DomainError::FileNotFound),
            exists && size is Err ==> (r matches Err(DomainError::IoError(detail)) && detail@
                == size->Err_0@),
            exists && size is Ok && video_type_of(extension_of(file_path@)) is None ==> (
            r matches Err(DomainError::InvalidContentType)),
            exists && size is Ok && video_type_of(extension_of(file_path@)) is Some ==> (
            r matches Ok(metadata) && metadata.total_size == size->Ok_0
                && metadata.content_type@ == video_type_of(extension_of(file_path@))->0
                && metadata.duration_millis is None && metadata.bitrate is None),
    {
        if !exists {
            return Err(DomainError::FileNotFound);
        }
        let total_size = match size {
            Ok(total_size) => total_size,
            Err(cause) => {
                return Err(DomainError::IoError(cause));
            },
        };
        let extension = path_extension(file_path.as_str());
        let content_type = match &extension {
            Some(ext) => VideoMetadata::content_type_of(Some(ext.as_str())),
            None => VideoMetadata::content_type_of(None),
        };
        match content_type {
            Ok(content_type) => Ok(VideoMetadata::new(total_size, content_type)),
            Err(e) => Err(e),
        }
    }
}

/// Aggregate root: a video file that can be streamed.
#[derive(Debug)]
pub struct Video {
    pub id: VideoId,
    pub metadata: VideoMetadata,
    pub file_path: FilePath,
}

/// The mathematical content of a video.
pub struct VideoView {
    pub id: Seq<char>,
    pub file_path: Seq<char>,
    pub total_size: u64,
    pub content_type: Seq<char>,
    pub duration_millis: Option<u64>,
    pub bitrate: Option<u32>,
}

impl View for Video {
    type V = VideoView;

    open spec fn view(&self) -> VideoView {
        VideoView {
            id: self.id@,
            file_path: self.file_path@,
            total_size: self.metadata.total_size,
            content_type: self.metadata.content_type@,
            duration_millis: self.metadata.duration_millis,
            bitrate: self.metadata.bitrate,
        }
    }
}

impl Clone for Video {
    fn clone(&self) -> (r: Self)
        ensures
            r@ == self@,
    {
        Video {
            id: self.id.clone(),
            metadata: self.metadata.clone(),
            file_path: self.file_path.clone(),
        }
    }
}

/// Domain service: the store of videos, addressed by video identifier.
/// A video handed out is a copy.
pub trait VideoRepository {
    /// The videos held, by video identifier.
    spec fn videos(&self) -> Map<Seq<char>, VideoView>;

    /// Whether every operation of this store succeeds.
    spec fn never_fails(&self) -> bool;

    /// A copy of the video held under `id`, or `None` where there is
    /// none.
    fn find_by_id(&self, id: &VideoId) -> (r: DomainResult<Option<Video>>)
        ensures
            r matches Ok(Some(video)) ==> self.videos().contains_key(id@) && video@
                == self.videos()[id@],
            r matches Ok(None) ==> !self.videos().contains_key(id@),
            self.never_fails() ==> r is Ok,
    ;

    /// Stores a copy of `video` under its identifier, replacing a video
    /// held under it. A store that fails holds what it held before.
    fn save(&mut self, video: &Video) -> (r: DomainResult<()>)
        ensures
            r is Ok ==> final(self).videos() == old(self).videos().insert(video@.id, video@),
            r is Err ==> final(self).videos() == old(self).videos(),
            old(self).never_fails() ==> r is Ok,
            final(self).never_fails() == old(self).never_fails(),
    ;

    /// Removes the video held under `id`, if there is one. A store that
    /// fails holds what it held before.
    fn delete(&mut self, id: &VideoId) -> (r: DomainResult<()>)
        ensures
            r is Ok ==> final(self).videos() == old(self).videos().remove(id@),
            r is Err ==> final(self).videos() == old(self).videos(),
            old(self).never_fails() ==> r is Ok,
            final(self).never_fails() == old(self).never_fails(),
    ;
}

impl Video {
    /// The video at `file_path` with the given metadata.
    pub fn with_metadata(id: VideoId, file_path: FilePath, metadata: VideoMetadata) -> (r: Self)
        ensures
            r == (Video { id, metadata, file_path }),
    {
        Video { id, metadata, file_path }
    }

    /// The video at `file_path` from what a probe of the file system
    /// found; see `VideoMetadata::from_probe` for what is accepted.
    pub fn from_probe(id: VideoId, file_path: FilePath, exists: bool, size: Result<u64, String>) -> (r:
        DomainResult<Self>)
        ensures
            !exists ==> r matches Err(DomainError::FileNotFound),
            exists && size is Err ==> (r matches Err(DomainError::IoError(detail)) && detail@
                == size->Err_0@),
            exists && size is Ok && video_type_of(extension_of(file_path@)) is None ==> (
            r matches Err(DomainError::InvalidContentType)),
            exists && size is Ok && video_type_of(extension_of(file_path@)) is Some ==> (
            r matches Ok(video) && video.id == id && video.file_path == file_path
                && video.metadata.total_size == size->Ok_0 && video.metadata.content_type@
                == video_type_of(extension_of(file_path@))->0 && video.metadata.duration_millis
                is None && video.metadata.bitrate is None),
    {
        match VideoMetadata::from_probe(&file_path, exists, size) {
            Ok(metadata) => Ok(Video { id, metadata, file_path }),
            Err(e) => Err(e),
        }
    }

    /// Every video can be served in byte ranges.
    pub fn supports_range_requests(&self) -> (r: bool)
        ensures
            r,
    {
        true
    }
}

/// What is known of a video file on disk.
#[derive(Debug)]
pub struct VideoInfo {
    pub total_size: u64,
    pub content_type: String,
}

impl Clone for VideoInfo {
    fn clone(&self) -> (r: Self)
        ensures
            r == *self,
    {
        VideoInfo { total_size: self.total_size, content_type: self.content_type.clone() }
    }
}

/// A requested range of bytes, as read from a request: it may be
/// reversed or reach past the end of the file.
#[derive(Debug, Clone, Copy, PartialEq, Eq, Structural)]
pub struct RangeRequest {
    pub start: u64,
    pub end: u64,
    pub total_size: u64,
}

/// A part of a video file: its bytes, and the range they were read for.
#[derive(Debug)]
pub struct VideoChunk {
    pub data: Vec<u8>,
    pub range: RangeRequest,
}

impl VideoChunk {
    /// The chunk of `data` read for `range`.
    pub fn new(_video_id: VideoId, range: ByteRange, data: Vec<u8>) -> (r: Self)
        ensures
            r == (VideoChunk {
                data,
                range: RangeRequest {
                    start: range.start,
                    end: range.end,
                    total_size: range.total_size,
                },
            }),
    {
        VideoChunk {
            data,
            range: RangeRequest {
                start: range.start,
                end: range.end,
                total_size: range.total_size,
            },
        }
    }
}

/// Domain service: reads the bytes of videos. What it hands back
/// depends on the medium it reads from, so nothing is claimed of it.
pub trait VideoStreamingService {
    /// The bytes of `video` in `range`.
    fn read_chunk(&self, video: &Video, range: &ByteRange) -> (r: DomainResult<VideoChunk>);

    /// What is known of `video`.
    fn get_metadata(&self, video: &Video) -> (r: DomainResult<VideoMetadata>);
}

/// A range header without its unit: every leading `bytes=` is dropped.
pub open spec fn without_unit(header: Seq<char>) -> Seq<char>
    decreases header.len(),
{
    if header.len() >= 6 && header.subrange(0, 6) == "bytes="@ {
        without_unit(header.subrange(6, header.len() as int))
    } else {
        header
    }
}

/// The position of the first `-` in `s`, or the length of `s` where it
/// holds none.
pub open spec fn first_dash(s: Seq<char>) -> int
    decreases s.len(),
{
    if s.len() == 0 || s[0] == '-' {
        0
    } else {
        1 + first_dash(s.subrange(1, s.len() as int))
    }
}

/// The text of a range header in which the first byte is written: what
/// stands before the first `-`.
pub open spec fn start_text(header: Seq<char>) -> Seq<char> {
    let body = without_unit(header);
    body.subrange(0, first_dash(body))
}

/// The text of a range header in which the last byte is written: what
/// stands between the first `-` and the next; `None` without a `-`.
pub open spec fn end_text(header: Seq<char>) -> Option<Seq<char>> {
    let body = without_unit(header);
    let dash = first_dash(body);
    if dash < body.len() {
        let rest = body.subrange(dash + 1, body.len() as int);
        Some(rest.subrange(0, first_dash(rest)))
    } else {
        None
    }
}

/// The range that a header asks for in a file of `total_size` bytes.
/// Without a header it is the whole file. The first byte is the number
/// before the first `-`, or 0 where no number stands there; the last
/// byte is the number after it, or the last byte of the file where no
/// number stands there, and never lies past the end of the file.
pub open spec fn requested_range(header: Option<Seq<char>>, total_size: u64) -> RangeRequest
    recommends
        total_size > 0,
{
    let last = (total_size - 1) as u64;
    match header {
        Some(h) => {
            let start = match parse_u64_spec(start_text(h)) {
                Some(n) => n,
                None => 0,
            };
            let end = match end_text(h) {
                Some(text) => match parse_u64_spec(text) {
                    Some(n) => n,
                    None => last,
                },
                None => last,
            };
            RangeRequest { start, end: if end < last {
                end
            } else {
                last
            }, total_size }
        },
        None => RangeRequest { start: 0, end: last, total_size },
    }
}

/// The first `-` of `s` is at `k` where no `-` stands before `k` and
/// one stands at `k`, or `k` is the end of `s`.
pub proof fn lemma_first_dash(s: Seq<char>, k: int)
    requires
        0 <= k <= s.len(),
        forall|j: int| 0 <= j < k ==> s[j] != '-',
        k < s.len() ==> s[k] == '-',
    ensures
        first_dash(s) == k,
    decreases k,
{
    if k > 0 {
        let rest = s.subrange(1, s.len() as int);
        lemma_first_dash(rest, k - 1);
    }
}

/// The position of the first `-` of `s` at or after `from`, or the
/// length of `s` where none stands there.
fn find_dash(s: &str, from: usize, len: usize) -> (k: usize)
    requires
        from <= len,
        len == s@.len(),
    ensures
        from <= k <= len,
        k - from == first_dash(s@.subrange(from as int, len as int)),
{
    let mut k: usize = from;
    while k < len && s.get_char(k) != '-'
        invariant
            from <= k <= len,
            len == s@.len(),
            forall|j: int| from <= j < k ==> s@[j] != '-',
        decreases len - k,
    {
        k = k + 1;
    }
    proof {
        let tail = s@.subrange(from as int, len as int);
        lemma_first_dash(tail, k - from);
    }
    k
}

/// The position at which a range header continues after its unit.
fn skip_unit(s: &str, len: usize) -> (i: usize)
    requires
        len == s@.len(),
    ensures
        i <= len,
        without_unit(s@) == s@.subrange(i as int, len as int),
{
    let mut i: usize = 0;
    assert(s@.subrange(0, len as int) =~= s@);
    while len - i >= 6 && s.substring_char(i, i + 6).eq("bytes=")
        invariant
            i <= len,
            len == s@.len(),
            without_unit(s@) == without_unit(s@.subrange(i as int, len as int)),
        decreases len - i,
    {
        proof {
            let tail = s@.subrange(i as int, len as int);
            assert(tail.subrange(0, 6) =~= s@.subrange(i as int, i + 6));
            assert(tail.subrange(6, tail.len() as int) =~= s@.subrange(i + 6, len as int));
        }
        i = i + 6;
    }
    proof {
        let tail = s@.subrange(i as int, len as int);
        if len - i >= 6 {
            assert(tail.subrange(0, 6) =~= s@.subrange(i as int, i + 6));
        }
    }
    i
}

/// The range that `range_header` asks for in a file of `total_size`
/// bytes. The range may be reversed; it never reaches past the end of
/// the file.
pub fn parse_range_header(range_header: Option<&str>, total_size: u64) -> (r: RangeRequest)
    requires
        total_size > 0,
    ensures
        r == requested_range(slice_text(range_header), total_size),
        r.end < total_size,
        r.total_size == total_size,
{
    let last = total_size - 1;
    match range_header {
        Some(header) => {
            let len = header.unicode_len();
            let body_at = skip_unit(header, len);
            let dash = find_dash(header, body_at, len);
            let ghost body = without_unit(header@);
            let start_part = header.substring_char(body_at, dash);
            assert(start_part@ =~= start_text(header@));
            let start = match parse_u64(start_part) {
                Some(n) => n,
                None => 0,
            };
            let end = if dash < len {
                let next = find_dash(header, dash + 1, len);
                let end_part = header.substring_char(dash + 1, next);
                proof {
                    let rest = body.subrange(dash - body_at + 1, body.len() as int);
                    assert(rest =~= header@.subrange(dash + 1, len as int));
                    assert(end_text(header@) == Some(end_part@));
                }
                match parse_u64(end_part) {
                    Some(n) => n,
                    None => last,
                }
            } else {
                last
            };
            RangeRequest { start, end: if end < last {
                end
            } else {
                last
            }, total_size }
        },
        None => RangeRequest { start: 0, end: last, total_size },
    }
}

/// Domain service: reads range headers into valid byte ranges.
pub struct RangeParser;

impl RangeParser {
    /// The byte range that `range_header` asks for in a file of
    /// `total_size` bytes; a reversed range is rejected as invalid.
    pub fn parse_range_header(range_header: Option<&str>, total_size: u64) -> (r: DomainResult<
        ByteRange,
    >)
        requires
            total_size > 0,
        ensures
            ({
                let asked = requested_range(slice_text(range_header), total_size);
                &&& asked.start <= asked.end ==> r == Ok::<ByteRange, DomainError>(
                    ByteRange { start: asked.start, end: asked.end, total_size },
                )
                &&& asked.start > asked.end ==> r == Err::<ByteRange, DomainError>(
                    DomainError::InvalidRange,
                )
            }),
    {
        let asked = parse_range_header(range_header, total_size);
        ByteRange::new(asked.start, asked.end, total_size)
    }
}

/// Whether a requested range is ordered and lies within the file.
pub fn validate_range(range: &RangeRequest) -> (r: bool)
    ensures
        r == (range.start <= range.end && range.end < range.total_size),
{
    range.start <= range.end && range.end < range.total_size && range.start < range.total_size
}

/// The value of the content-range header for a range.
pub open spec fn content_range_text(start: u64, end: u64, total_size: u64) -> Seq<char> {
    "bytes "@ + decimal(start as nat) + "-"@ + decimal(end as nat) + "/"@ + decimal(
        total_size as nat,
    )
}

/// Renders the content-range header for the given bounds.
pub fn format_range(start: u64, end: u64, total_size: u64) -> (r: String)
    ensures
        r@ == content_range_text(start, end, total_size),
{
    let mut out = String::from_str("bytes ");
    append_decimal(&mut out, start as u128);
    out.append("-");
    append_decimal(&mut out, end as u128);
    out.append("/");
    append_decimal(&mut out, total_size as u128);
    out
}

/// The value of the content-range header for `range`.
pub fn format_content_range(range: &RangeRequest) -> (r: String)
    ensures
        r@ == content_range_text(range.start, range.end, range.total_size),
{
    format_range(range.start, range.end, range.total_size)
}

/// The number of bytes to read for a requested range.
pub fn chunk_length(range: &RangeRequest) -> (r: u64)
    requires
        range.start <= range.end,
        range.end - range.start < u64::MAX,
    ensures
        r == range.end - range.start + 1,
{
    range.end - range.start + 1
}

} // verus!
