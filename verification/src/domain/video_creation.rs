//! The video-creation job: its request, its progress and its life cycle.
use vstd::prelude::*;
use vstd::std_specs::cmp::PartialEqSpecImpl;
use vstd::string::StringExecFns;
use crate::domain::common::{DomainError, DomainResult, FilePath};
use crate::domain::video::VideoId;
use crate::shared::clock::Timestamp;
use crate::shared::paths::{
    extension_of,
    lowercase_of,
    path_exists,
    path_extension,
    to_lowercase,
};
use crate::shared::text::{append_decimal, decimal, optional_text, texts};

verus! {

/// Value object: the frame size and the display time of each image.
#[derive(Debug, Clone, Copy, PartialEq, Eq, Structural)]
pub struct ImageSpec {
    pub width: u32,
    pub height: u32,
    pub duration_seconds: u32,
}

impl ImageSpec {
    /// All three quantities are strictly positive.
    pub open spec fn valid(self) -> bool {
        self.width > 0 && self.height > 0 && self.duration_seconds > 0
    }

    /// Builds a specification; succeeds exactly when all three quantities
    /// are strictly positive.
    pub fn new(width: u32, height: u32, duration_seconds: u32) -> (r: DomainResult<Self>)
        ensures
            (width > 0 && height > 0 && duration_seconds > 0) ==> r == Ok::<Self, DomainError>(
                ImageSpec { width, height, duration_seconds },
            ),
            !(width > 0 && height > 0 && duration_seconds > 0) ==> r == Err::<Self, DomainError>(
                DomainError::InvalidRange,
            ),
            r matches Ok(spec) ==> spec.valid(),
    {
        if width == 0 || height == 0 || duration_seconds == 0 {
            return Err(DomainError::InvalidRange);
        }
        Ok(ImageSpec { width, height, duration_seconds })
    }
}

impl Default for ImageSpec {
    /// 800 by 600, one second per image.
    fn default() -> (r: Self)
        ensures
            r == (ImageSpec { width: 800, height: 600, duration_seconds: 1 }),
    {
        ImageSpec { width: 800, height: 600, duration_seconds: 1 }
    }
}

/// The texts of a sequence of paths, in order.
pub open spec fn path_texts(paths: Seq<FilePath>) -> Seq<Seq<char>> {
    Seq::new(paths.len(), |i: int| paths[i]@)
}

/// Whether the `i`-th image is known to be present: an answer that is
/// missing counts as absent.
pub open spec fn is_present(presence: Seq<bool>, i: int) -> bool {
    0 <= i < presence.len() && presence[i]
}

/// Whether each of the first `count` images is known to be present.
pub open spec fn all_present(presence: Seq<bool>, count: nat) -> bool {
    forall|i: int| 0 <= i < count ==> is_present(presence, i)
}

/// The mathematical content of a request.
pub struct RequestView {
    pub image_paths: Seq<Seq<char>>,
    pub output_path: Seq<char>,
    pub image_spec: ImageSpec,
    pub video_id: Seq<char>,
}

/// Value object: a request to turn an ordered sequence of images into a
/// video. The order of the images is the order of the frames.
#[derive(Debug)]
pub struct VideoCreationRequest {
    pub image_paths: Vec<FilePath>,
    pub output_path: FilePath,
    pub image_spec: ImageSpec,
    pub video_id: VideoId,
}

impl View for VideoCreationRequest {
    type V = RequestView;

    open spec fn view(&self) -> RequestView {
        RequestView {
            image_paths: path_texts(self.image_paths@),
            output_path: self.output_path@,
            image_spec: self.image_spec,
            video_id: self.video_id@,
        }
    }
}

impl Clone for VideoCreationRequest {
    fn clone(&self) -> (r: Self)
        ensures
            r@ == self@,
    {
        let mut image_paths: Vec<FilePath> = Vec::new();
        let mut i: usize = 0;
        while i < self.image_paths.len()
            invariant
                i <= self.image_paths.len(),
                image_paths.len() == i,
                forall|k: int| 0 <= k < i ==> image_paths@[k]@ == self.image_paths@[k]@,
            decreases self.image_paths.len() - i,
        {
            image_paths.push(self.image_paths[i].clone());
            i = i + 1;
        }
        assert(path_texts(image_paths@) =~= path_texts(self.image_paths@));
        VideoCreationRequest {
            image_paths,
            output_path: self.output_path.clone(),
            image_spec: self.image_spec,
            video_id: self.video_id.clone(),
        }
    }
}

impl VideoCreationRequest {
    /// Builds a request from the images and from what is known of their
    /// presence on disk: the `i`-th answer tells whether the `i`-th image
    /// exists. An empty sequence of images is rejected as an invalid
    /// state; otherwise a missing image is reported as not found.
    pub fn with_presence(
        image_paths: Vec<FilePath>,
        presence: &Vec<bool>,
        output_path: FilePath,
        image_spec: ImageSpec,
        video_id: VideoId,
    ) -> (r: DomainResult<Self>)
        ensures
            image_paths.len() == 0 ==> (r matches Err(DomainError::InvalidState(msg)) && msg@
                == "No images provided"@),
            image_paths.len() > 0 && !all_present(presence@, image_paths@.len()) ==> r matches Err(
                DomainError::FileNotFound,
            ),
            image_paths.len() > 0 && all_present(presence@, image_paths@.len()) ==> r == Ok::<
                Self,
                DomainError,
            >(VideoCreationRequest { image_paths, output_path, image_spec, video_id }),
    {
        if image_paths.len() == 0 {
            return Err(DomainError::InvalidState(String::from_str("No images provided")));
        }
        let mut i: usize = 0;
        while i < image_paths.len()
            invariant
                i <= image_paths.len(),
                forall|k: int| 0 <= k < i ==> is_present(presence@, k),
            decreases image_paths.len() - i,
        {
            if i >= presence.len() || !presence[i] {
                assert(!is_present(presence@, i as int));
                return Err(DomainError::FileNotFound);
            }
            i = i + 1;
        }
        Ok(VideoCreationRequest { image_paths, output_path, image_spec, video_id })
    }

    /// Builds a request after asking the file system for each image in
    /// turn. An empty sequence of images is rejected as an invalid state
    /// without any probe; otherwise the request is accepted as given, or
    /// an image was found missing.
    pub fn new(
        image_paths: Vec<FilePath>,
        output_path: FilePath,
        image_spec: ImageSpec,
        video_id: VideoId,
    ) -> (r: DomainResult<Self>)
        ensures
            image_paths.len() == 0 ==> (r matches Err(DomainError::InvalidState(msg)) && msg@
                == "No images provided"@),
            image_paths.len() > 0 ==> (r == Ok::<Self, DomainError>(
                VideoCreationRequest { image_paths, output_path, image_spec, video_id },
            ) || r matches Err(DomainError::FileNotFound)),
    {
        let presence = probe_presence(&image_paths);
        VideoCreationRequest::with_presence(
            image_paths,
            &presence,
            output_path,
            image_spec,
            video_id,
        )
    }

    /// The number of frames: one per image.
    pub open spec fn frames(self) -> nat {
        self.image_paths@.len()
    }

    /// The playing time of the video in seconds: the number of images
    /// times the display time of each.
    pub open spec fn total_seconds(self) -> nat {
        self.frames() * self.image_spec.duration_seconds as nat
    }

    /// The playing time of the video in seconds.
    pub fn total_duration(&self) -> (r: u32)
        requires
            self.total_seconds() <= u32::MAX,
            self.frames() <= u32::MAX,
        ensures
            r == self.total_seconds(),
    {
        let count: u32 = self.image_paths.len() as u32;
        count * self.image_spec.duration_seconds
    }

    /// The playing time of the video in seconds, or `None` when it does
    /// not fit in 32 bits.
    pub fn checked_total_duration(&self) -> (r: Option<u32>)
        ensures
            self.total_seconds() <= u32::MAX ==> r == Some(self.total_seconds() as u32),
            self.total_seconds() > u32::MAX ==> r is None,
    {
        let count: u128 = self.image_paths.len() as u128;
        let each: u128 = self.image_spec.duration_seconds as u128;
        assert(count * each <= 0xffff_ffff_ffff_ffff * 0xffff_ffff) by (nonlinear_arith)
            requires
                count <= 0xffff_ffff_ffff_ffff,
                each <= 0xffff_ffff,
        ;
        let total: u128 = count * each;
        if total <= 0xffff_ffff {
            Some(total as u32)
        } else {
            None
        }
    }

    /// The number of frames: one per image.
    pub fn frame_count(&self) -> (r: usize)
        ensures
            r == self.frames(),
    {
        self.image_paths.len()
    }
}

/// Asks the file system, for each path in turn, whether it exists.
fn probe_presence(image_paths: &Vec<FilePath>) -> (r: Vec<bool>)
    ensures
        r.len() == image_paths.len(),
{
    let mut presence: Vec<bool> = Vec::new();
    let mut i: usize = 0;
    while i < image_paths.len()
        invariant
            i <= image_paths.len(),
            presence.len() == i,
        decreases image_paths.len() - i,
    {
        presence.push(path_exists(image_paths[i].as_str()));
        i = i + 1;
    }
    presence
}

/// The share of `total` that `current` makes up, in hundredths of a
/// percent and rounded down; 0 when `total` is 0.
pub open spec fn basis_points(current: nat, total: nat) -> nat {
    if total > 0 {
        current * 10000 / total
    } else {
        0
    }
}

/// Value object: how far a job has come. The percentage is derived from
/// the two frame counts and is kept in hundredths of a percent.
#[derive(Debug, Clone, Copy, PartialEq, Eq, Structural)]
pub struct VideoCreationProgress {
    pub current_frame: usize,
    pub total_frames: usize,
    pub percentage_basis_points: u128,
    pub estimated_time_remaining_seconds: Option<u64>,
}

/// The progress record for `current_frame` frames out of `total_frames`.
pub open spec fn progress_at(current_frame: usize, total_frames: usize) -> VideoCreationProgress {
    VideoCreationProgress {
        current_frame,
        total_frames,
        percentage_basis_points: basis_points(current_frame as nat, total_frames as nat) as u128,
        estimated_time_remaining_seconds: None,
    }
}

impl VideoCreationProgress {
    /// The percentage agrees with the frame counts.
    pub open spec fn consistent(self) -> bool {
        self.percentage_basis_points == basis_points(
            self.current_frame as nat,
            self.total_frames as nat,
        )
    }

    /// The progress record for `current_frame` frames out of
    /// `total_frames`, with the percentage computed from the two.
    pub fn new(current_frame: usize, total_frames: usize) -> (r: Self)
        ensures
            r == progress_at(current_frame, total_frames),
            r.consistent(),
            current_frame <= total_frames ==> r.percentage_basis_points <= 10000,
    {
        let current: u128 = current_frame as u128;
        let total: u128 = total_frames as u128;
        let percentage_basis_points: u128 = if total_frames > 0 {
            current * 10000 / total
        } else {
            0
        };
        proof {
            if current_frame <= total_frames {
                lemma_percentage_bounded(current_frame as nat, total_frames as nat);
            }
        }
        VideoCreationProgress {
            current_frame,
            total_frames,
            percentage_basis_points,
            estimated_time_remaining_seconds: None,
        }
    }

    /// Whether every frame has been produced.
    pub fn is_complete(&self) -> (r: bool)
        ensures
            r == (self.current_frame >= self.total_frames),
    {
        self.current_frame >= self.total_frames
    }
}

/// While no more frames are reported than the job has, the percentage
/// lies between 0 and 100.
pub proof fn lemma_percentage_bounded(current: nat, total: nat)
    requires
        current <= total,
    ensures
        0 <= basis_points(current, total) <= 10000,
{
    if total > 0 {
        assert(current * 10000 / total <= 10000) by (nonlinear_arith)
            requires
                current <= total,
                total > 0,
        ;
    }
}

/// Reporting more frames never lowers the percentage.
pub proof fn lemma_percentage_monotone(earlier: nat, later: nat, total: nat)
    requires
        earlier <= later,
    ensures
        basis_points(earlier, total) <= basis_points(later, total),
{
    if total > 0 {
        assert(earlier * 10000 / total <= later * 10000 / total) by (nonlinear_arith)
            requires
                earlier <= later,
                total > 0,
        ;
    }
}

/// Value object: where a job stands in its life cycle.
#[derive(Debug, Clone, Copy, PartialEq, Eq, Structural)]
pub enum VideoCreationStatus {
    Pending,
    InProgress,
    Completed,
    Failed,
}

impl VideoCreationStatus {
    /// `Completed` and `Failed` end a job's life cycle.
    pub open spec fn is_terminal(self) -> bool {
        self is Completed || self is Failed
    }

    /// The name of the status.
    pub open spec fn name(self) -> Seq<char> {
        match self {
            VideoCreationStatus::Pending => "Pending"@,
            VideoCreationStatus::InProgress => "InProgress"@,
            VideoCreationStatus::Completed => "Completed"@,
            VideoCreationStatus::Failed => "Failed"@,
        }
    }

    /// The name of the status as text.
    pub fn label(&self) -> (r: String)
        ensures
            r@ == self.name(),
    {
        match self {
            VideoCreationStatus::Pending => String::from_str("Pending"),
            VideoCreationStatus::InProgress => String::from_str("InProgress"),
            VideoCreationStatus::Completed => String::from_str("Completed"),
            VideoCreationStatus::Failed => String::from_str("Failed"),
        }
    }
}

/// The text of the job identifier issued at a given time: `job_` and the
/// milliseconds since the epoch.
pub open spec fn job_id_text(at: Timestamp) -> Seq<char> {
    "job_"@ + decimal(at.total_millis())
}

/// Entity: the identifier of a video-creation job.
#[derive(Debug, Eq, Hash)]
pub struct VideoCreationJobId(String);

impl PartialEq for VideoCreationJobId {
    fn eq(&self, other: &Self) -> (r: bool) {
        self.0 == other.0
    }
}

impl PartialEqSpecImpl for VideoCreationJobId {
    open spec fn obeys_eq_spec() -> bool {
        true
    }

    open spec fn eq_spec(&self, other: &Self) -> bool {
        self@ == other@
    }
}

impl View for VideoCreationJobId {
    type V = Seq<char>;

    closed spec fn view(&self) -> Seq<char> {
        self.0@
    }
}

impl Clone for VideoCreationJobId {
    fn clone(&self) -> (r: Self)
        ensures
            r@ == self@,
    {
        VideoCreationJobId(self.0.clone())
    }
}

impl VideoCreationJobId {
    /// Wraps an identifier; every text is accepted.
    pub fn new(id: String) -> (r: Self)
        ensures
            r@ == id@,
    {
        VideoCreationJobId(id)
    }

    /// The identifier issued at the time `at`. It is never empty.
    pub fn issued_at(at: Timestamp) -> (r: Self)
        ensures
            r@ == job_id_text(at),
            r@.len() > 0,
    {
        let mut id = String::from_str("job_");
        append_decimal(&mut id, at.as_millis());
        VideoCreationJobId(id)
    }

    /// The identifier issued at the time that the system clock tells. It
    /// is never empty. Two calls within one millisecond give the same
    /// identifier: where an identifier must differ from those that a
    /// store holds, the store is asked, as the beginning of a conversion
    /// does.
    pub fn generate() -> (r: Self)
        ensures
            exists|at: Timestamp| r@ == job_id_text(at),
            r@.len() > 0,
    {
        let now = Timestamp::now();
        VideoCreationJobId::issued_at(now)
    }

    /// The identifier as text.
    pub fn as_str(&self) -> (r: &str)
        ensures
            r@ == self@,
    {
        self.0.as_str()
    }
}

/// The mathematical content of a job.
pub struct JobView {
    pub id: Seq<char>,
    pub request: RequestView,
    pub status: VideoCreationStatus,
    pub progress: Option<VideoCreationProgress>,
    pub created_at: Timestamp,
    pub completed_at: Option<Timestamp>,
    pub error_message: Option<Seq<char>>,
}

/// Whether a job may move from the status `from` to the status `to`:
/// a pending job may start, a running job may complete, and any job may
/// be failed.
pub open spec fn may_follow(from: VideoCreationStatus, to: VideoCreationStatus) -> bool {
    ||| (from is Pending && to is InProgress)
    ||| (from is InProgress && to is Completed)
    ||| to is Failed
}

/// Entity: one request to turn images into a video, tracked from its
/// submission to its outcome.
#[derive(Debug)]
pub struct VideoCreationJob {
    pub id: VideoCreationJobId,
    pub request: VideoCreationRequest,
    pub status: VideoCreationStatus,
    pub progress: Option<VideoCreationProgress>,
    pub created_at: Timestamp,
    pub completed_at: Option<Timestamp>,
    pub error_message: Option<String>,
}

impl View for VideoCreationJob {
    type V = JobView;

    open spec fn view(&self) -> JobView {
        JobView {
            id: self.id@,
            request: self.request@,
            status: self.status,
            progress: self.progress,
            created_at: self.created_at,
            completed_at: self.completed_at,
            error_message: optional_text(self.error_message),
        }
    }
}

impl Clone for VideoCreationJob {
    fn clone(&self) -> (r: Self)
        ensures
            r@ == self@,
    {
        let error_message = match &self.error_message {
            Some(text) => Some(text.clone()),
            None => None,
        };
        VideoCreationJob {
            id: self.id.clone(),
            request: self.request.clone(),
            status: self.status,
            progress: self.progress,
            created_at: self.created_at,
            completed_at: self.completed_at,
            error_message,
        }
    }
}

impl VideoCreationJob {
    /// The job once started: in progress, with no frame done.
    pub open spec fn started(self) -> VideoCreationJob {
        VideoCreationJob {
            status: VideoCreationStatus::InProgress,
            progress: Some(progress_at(0, self.request.image_paths.len())),
            ..self
        }
    }

    /// The job with `current_frame` frames done.
    pub open spec fn progressed(self, current_frame: usize) -> VideoCreationJob {
        VideoCreationJob {
            progress: Some(progress_at(current_frame, self.request.image_paths.len())),
            ..self
        }
    }

    /// The job completed at the time `now`: every frame is done.
    pub open spec fn completed(self, now: Timestamp) -> VideoCreationJob {
        VideoCreationJob {
            status: VideoCreationStatus::Completed,
            completed_at: Some(now),
            progress: Some(
                progress_at(self.request.image_paths.len(), self.request.image_paths.len()),
            ),
            ..self
        }
    }

    /// The job failed at the time `now` with the given message.
    pub open spec fn failed(self, error_message: String, now: Timestamp) -> VideoCreationJob {
        VideoCreationJob {
            status: VideoCreationStatus::Failed,
            error_message: Some(error_message),
            completed_at: Some(now),
            ..self
        }
    }

    /// What `start` makes of the job: a pending job starts, any other
    /// stays as it is.
    pub open spec fn after_start(self) -> VideoCreationJob {
        if self.status is Pending {
            self.started()
        } else {
            self
        }
    }

    /// What `update_progress` makes of the job: a job in progress takes
    /// the new count of frames, any other stays as it is.
    pub open spec fn after_update_progress(self, current_frame: usize) -> VideoCreationJob {
        if self.status is InProgress {
            self.progressed(current_frame)
        } else {
            self
        }
    }

    /// What `complete` makes of the job at the time `now`: a job in
    /// progress completes, any other stays as it is.
    pub open spec fn after_complete(self, now: Timestamp) -> VideoCreationJob {
        if self.status is InProgress {
            self.completed(now)
        } else {
            self
        }
    }

    /// A pending job created at the time `now`.
    pub fn new_at(id: VideoCreationJobId, request: VideoCreationRequest, now: Timestamp) -> (r:
        Self)
        ensures
            r == (VideoCreationJob {
                id,
                request,
                status: VideoCreationStatus::Pending,
                progress: None,
                created_at: now,
                completed_at: None,
                error_message: None,
            }),
    {
        VideoCreationJob {
            id,
            request,
            status: VideoCreationStatus::Pending,
            progress: None,
            created_at: now,
            completed_at: None,
            error_message: None,
        }
    }

    /// A pending job, created at the current time.
    pub fn new(id: VideoCreationJobId, request: VideoCreationRequest) -> (r: Self)
        ensures
            r == (VideoCreationJob {
                id,
                request,
                status: VideoCreationStatus::Pending,
                progress: None,
                created_at: r.created_at,
                completed_at: None,
                error_message: None,
            }),
    {
        VideoCreationJob::new_at(id, request, Timestamp::now())
    }

    /// Starts a pending job: it is then in progress, with no frame done.
    /// Any other job is left as it is and the call fails.
    pub fn start(&mut self) -> (r: DomainResult<()>)
        ensures
            *final(self) == old(self).after_start(),
            r is Ok <==> old(self).status is Pending,
            r is Err ==> (r matches Err(DomainError::InvalidState(msg)) && msg@
                == "Job already started"@),
    {
        match self.status {
            VideoCreationStatus::Pending => {
                self.status = VideoCreationStatus::InProgress;
                self.progress = Some(VideoCreationProgress::new(0, self.request.frame_count()));
                Ok(())
            },
            _ => Err(DomainError::InvalidState(String::from_str("Job already started"))),
        }
    }

    /// Records that `current_frame` frames are done. Only a job in
    /// progress accepts this; any other job is left as it is and the call
    /// fails.
    pub fn update_progress(&mut self, current_frame: usize) -> (r: DomainResult<()>)
        ensures
            *final(self) == old(self).after_update_progress(current_frame),
            r is Ok <==> old(self).status is InProgress,
            r is Err ==> (r matches Err(DomainError::InvalidState(msg)) && msg@
                == "Job not in progress"@),
    {
        match self.status {
            VideoCreationStatus::InProgress => {
                self.progress = Some(
                    VideoCreationProgress::new(current_frame, self.request.frame_count()),
                );
                Ok(())
            },
            _ => Err(DomainError::InvalidState(String::from_str("Job not in progress"))),
        }
    }

    /// Completes a job in progress at the time `now`: every frame is
    /// done, and where the job has frames its progress stands at one
    /// hundred percent. Any other job is left as it is and the call
    /// fails.
    pub fn complete_at(&mut self, now: Timestamp) -> (r: DomainResult<()>)
        ensures
            *final(self) == old(self).after_complete(now),
            r is Ok <==> old(self).status is InProgress,
            r is Err ==> (r matches Err(DomainError::InvalidState(msg)) && msg@
                == "Job not in progress"@),
            r is Ok && old(self).request.image_paths.len() > 0 ==> final(self).progress.unwrap().percentage_basis_points == 10000,
    {
        match self.status {
            VideoCreationStatus::InProgress => {
                self.status = VideoCreationStatus::Completed;
                self.completed_at = Some(now);
                let total = self.request.frame_count();
                self.progress = Some(VideoCreationProgress::new(total, total));
                proof {
                    lemma_all_frames_are_a_hundred_percent(total as nat);
                }
                Ok(())
            },
            _ => Err(DomainError::InvalidState(String::from_str("Job not in progress"))),
        }
    }

    /// Completes a job in progress at the current time. Any other job is
    /// left as it is and the call fails.
    pub fn complete(&mut self) -> (r: DomainResult<()>)
        ensures
            exists|now: Timestamp| *final(self) == #[trigger] old(self).after_complete(now),
            r is Ok <==> old(self).status is InProgress,
            r is Err ==> (r matches Err(DomainError::InvalidState(msg)) && msg@
                == "Job not in progress"@),
            r is Ok && old(self).request.image_paths.len() > 0 ==> final(self).progress.unwrap().percentage_basis_points == 10000,
    {
        let now = Timestamp::now();
        let r = self.complete_at(now);
        r
    }

    /// Fails the job at the time `now`, whatever its state: the message
    /// is recorded, replacing an earlier one. This never fails.
    pub fn fail_at(&mut self, error_message: String, now: Timestamp) -> (r: DomainResult<()>)
        ensures
            r is Ok,
            *final(self) == old(self).failed(error_message, now),
    {
        self.status = VideoCreationStatus::Failed;
        self.error_message = Some(error_message);
        self.completed_at = Some(now);
        Ok(())
    }

    /// Fails the job at the current time, whatever its state: the
    /// message is recorded, replacing an earlier one. This never fails.
    pub fn fail(&mut self, error_message: String) -> (r: DomainResult<()>)
        ensures
            r is Ok,
            exists|now: Timestamp| *final(self) == #[trigger] old(self).failed(error_message, now),
    {
        let now = Timestamp::now();
        let r = self.fail_at(error_message, now);
        r
    }

    /// The nanoseconds from the job's creation to its end, where it has
    /// ended and did not end before it was created.
    pub open spec fn elapsed(self) -> Option<nat> {
        match self.completed_at {
            Some(done) => if done.total_nanos() >= self.created_at.total_nanos() {
                Some((done.total_nanos() - self.created_at.total_nanos()) as nat)
            } else {
                None
            },
            None => None,
        }
    }

    /// The nanoseconds from the job's creation to its end; `None` while
    /// the job has not ended, or if it ended before it was created.
    pub fn duration(&self) -> (r: Option<u128>)
        ensures
            self.elapsed() matches Some(span) ==> (r matches Some(nanos) && nanos == span),
            self.elapsed() is None ==> r is None,
            r matches Some(span) ==> crate::shared::clock::whole_seconds(span as nat) <= u64::MAX,
    {
        match self.completed_at {
            Some(done) => done.elapsed_since(&self.created_at),
            None => None,
        }
    }
}

/// With every frame done the percentage is one hundred, where there is
/// a frame at all.
pub proof fn lemma_all_frames_are_a_hundred_percent(total: nat)
    ensures
        total > 0 ==> basis_points(total, total) == 10000,
        total == 0 ==> basis_points(total, total) == 0,
{
    if total > 0 {
        assert(total * 10000 / total == 10000) by (nonlinear_arith)
            requires
                total > 0,
        ;
    }
}

/// No operation takes a job out of its life cycle: `start`,
/// `update_progress` and `complete` leave the status as it is or move it
/// from pending to in progress or from in progress to completed, and
/// `fail` moves it to failed.
pub proof fn lemma_operations_follow_the_life_cycle(
    job: VideoCreationJob,
    current_frame: usize,
    error_message: String,
    now: Timestamp,
)
    ensures
        job.after_start().status == job.status || may_follow(job.status, job.after_start().status),
        job.after_update_progress(current_frame).status == job.status,
        job.after_complete(now).status == job.status || may_follow(
            job.status,
            job.after_complete(now).status,
        ),
        may_follow(job.status, job.failed(error_message, now).status),
{
}

/// A job that has ended stays as it is under `start`, `update_progress`
/// and `complete`: only `fail` changes it, and leaves it ended.
pub proof fn lemma_ended_jobs_stay_ended(
    job: VideoCreationJob,
    current_frame: usize,
    error_message: String,
    now: Timestamp,
)
    requires
        job.status.is_terminal(),
    ensures
        job.after_start() == job,
        job.after_update_progress(current_frame) == job,
        job.after_complete(now) == job,
        job.failed(error_message, now).status.is_terminal(),
{
}

/// A pending job that is started and then completed goes from pending
/// to in progress to completed, and ends with all its frames done.
pub proof fn lemma_pending_job_runs_to_completion(job: VideoCreationJob, now: Timestamp)
    requires
        job.status is Pending,
    ensures
        job.after_start().status is InProgress,
        job.after_start().after_complete(now).status is Completed,
        job.after_start().after_complete(now).completed_at == Some(now),
        job.request.image_paths.len() > 0 ==> job.after_start().after_complete(
            now,
        ).progress.unwrap().percentage_basis_points == 10000,
{
    lemma_all_frames_are_a_hundred_percent(job.request.image_paths.len() as nat);
}

/// While a job is in progress and no more frames are reported than it
/// has, its percentage lies between 0 and 100; and reporting more frames
/// never lowers it, whatever was reported in between.
pub proof fn lemma_progress_of_a_running_job(job: VideoCreationJob, earlier: usize, later: usize)
    requires
        job.status is InProgress,
        earlier <= later,
    ensures
        later <= job.request.image_paths.len() ==> job.after_update_progress(
            later,
        ).progress.unwrap().percentage_basis_points <= 10000,
        job.after_update_progress(earlier).progress.unwrap().percentage_basis_points
            <= job.after_update_progress(earlier).after_update_progress(
            later,
        ).progress.unwrap().percentage_basis_points,
{
    let total = job.request.image_paths.len() as nat;
    lemma_percentage_monotone(earlier as nat, later as nat, total);
    lemma_basis_points_fit(earlier as nat, total);
    lemma_basis_points_fit(later as nat, total);
    if later <= job.request.image_paths.len() {
        lemma_percentage_bounded(later as nat, total);
    }
}

/// The percentage of word-sized frame counts fits in 128 bits.
pub proof fn lemma_basis_points_fit(current: nat, total: nat)
    requires
        current <= usize::MAX,
    ensures
        basis_points(current, total) <= u128::MAX,
{
}

/// Whether a lower-case file extension is on the allow-list of image
/// types.
pub open spec fn is_image_extension(lowered: Seq<char>) -> bool {
    lowered == "jpg"@ || lowered == "jpeg"@ || lowered == "png"@ || lowered == "bmp"@ || lowered
        == "tiff"@ || lowered == "webp"@
}

/// The mathematical content of a probe.
pub struct ProbeView {
    pub exists: bool,
    pub extension: Option<Seq<char>>,
}

/// What is known of one image file: whether it exists, and the
/// extension of its name where it has one.
#[derive(Debug)]
pub struct ImageProbe {
    pub exists: bool,
    pub extension: Option<String>,
}

impl View for ImageProbe {
    type V = ProbeView;

    open spec fn view(&self) -> ProbeView {
        ProbeView { exists: self.exists, extension: optional_text(self.extension) }
    }
}

/// The contents of a sequence of probes, in order.
pub open spec fn probe_views(probes: Seq<ImageProbe>) -> Seq<ProbeView> {
    Seq::new(probes.len(), |i: int| probes[i]@)
}

/// What the disk shows of the image at `path`, where `exists` tells
/// whether there is a file: its presence, and the extension of its name.
pub open spec fn disk_probe(path: Seq<char>, exists: bool) -> ProbeView {
    ProbeView { exists, extension: extension_of(path) }
}

/// What the disk shows of the images at `paths`, in order, where the
/// `i`-th answer of `presence` tells whether the `i`-th file exists.
pub open spec fn disk_probes(paths: Seq<Seq<char>>, presence: Seq<bool>) -> Seq<ProbeView> {
    Seq::new(paths.len(), |i: int| disk_probe(paths[i], is_present(presence, i)))
}

/// The violation that a probe shows, if any: a file that does not exist
/// is not found; one whose extension, whatever its case, is absent or
/// off the allow-list has an invalid content type.
pub open spec fn probe_violation(probe: ProbeView) -> Option<DomainError> {
    if !probe.exists {
        Some(DomainError::FileNotFound)
    } else {
        match probe.extension {
            Some(extension) => if is_image_extension(lowercase_of(extension)) {
                None
            } else {
                Some(DomainError::InvalidContentType)
            },
            None => Some(DomainError::InvalidContentType),
        }
    }
}

/// The outcome of validating images from their probes: the violation of
/// the first probe that shows one, and success where none does.
pub open spec fn validation_outcome(probes: Seq<ProbeView>) -> Result<(), DomainError>
    decreases probes.len(),
{
    if probes.len() == 0 {
        Ok(())
    } else {
        match probe_violation(probes[0]) {
            Some(violation) => Err(violation),
            None => validation_outcome(probes.subrange(1, probes.len() as int)),
        }
    }
}

/// The image specification that a job uses: the one supplied, or 800 by
/// 600 at one second per image.
pub open spec fn spec_or_default(image_spec: Option<ImageSpec>) -> ImageSpec {
    match image_spec {
        Some(spec) => spec,
        None => ImageSpec { width: 800, height: 600, duration_seconds: 1 },
    }
}

/// Domain service: creates jobs and checks their inputs.
pub struct VideoCreationManager;

impl VideoCreationManager {
    /// Whether a lower-case file extension is on the allow-list of image
    /// types.
    pub fn is_allowed_extension(lowered: &str) -> (r: bool)
        ensures
            r == is_image_extension(lowered@),
    {
        lowered.eq("jpg") || lowered.eq("jpeg") || lowered.eq("png") || lowered.eq("bmp")
            || lowered.eq("tiff") || lowered.eq("webp")
    }

    /// The violation that one probe shows, if any.
    pub fn check_probe(probe: &ImageProbe) -> (r: Option<DomainError>)
        ensures
            r == probe_violation(probe@),
    {
        if !probe.exists {
            return Some(DomainError::FileNotFound);
        }
        match &probe.extension {
            Some(extension) => {
                let lowered = to_lowercase(extension.as_str());
                if VideoCreationManager::is_allowed_extension(lowered.as_str()) {
                    None
                } else {
                    Some(DomainError::InvalidContentType)
                }
            },
            None => Some(DomainError::InvalidContentType),
        }
    }

    /// Validates images from their probes, in order: the first violation
    /// is the result, and there is success where no probe shows one. No
    /// probes at all validate.
    pub fn validate_probes(probes: &Vec<ImageProbe>) -> (r: DomainResult<()>)
        ensures
            r == validation_outcome(probe_views(probes@)),
    {
        let ghost views = probe_views(probes@);
        let mut i: usize = 0;
        assert(views.subrange(0, views.len() as int) =~= views);
        while i < probes.len()
            invariant
                i <= probes.len(),
                views == probe_views(probes@),
                validation_outcome(views) == validation_outcome(
                    views.subrange(i as int, views.len() as int),
                ),
            decreases probes.len() - i,
        {
            let ghost rest = views.subrange(i as int, views.len() as int);
            assert(rest.subrange(1, rest.len() as int) =~= views.subrange(
                i + 1,
                views.len() as int,
            ));
            match VideoCreationManager::check_probe(&probes[i]) {
                Some(violation) => {
                    return Err(violation);
                },
                None => {},
            }
            i = i + 1;
        }
        Ok(())
    }

    /// Validates images on disk, in order, stopping at the first
    /// violation: a path that does not exist is not found; a file whose
    /// extension, whatever its case, is absent or off the allow-list has
    /// an invalid content type. The result is the outcome of validating
    /// what the disk shows of the paths: the extension of each, and for
    /// each whatever the file system answered of its presence. No paths
    /// at all validate.
    pub fn validate_images(image_paths: &[FilePath]) -> (r: DomainResult<()>)
        ensures
            image_paths@.len() == 0 ==> r is Ok,
            exists|presence: Seq<bool>|
                presence.len() == image_paths@.len() && r == validation_outcome(
                    #[trigger] disk_probes(path_texts(image_paths@), presence),
                ),
    {
        let ghost paths = path_texts(image_paths@);
        let mut i: usize = 0;
        while i < image_paths.len()
            invariant
                i <= image_paths@.len(),
                paths == path_texts(image_paths@),
                forall|k: int|
                    0 <= k < i ==> probe_violation(disk_probe(#[trigger] paths[k], true)) is None,
            decreases image_paths.len() - i,
        {
            let path = image_paths[i].as_str();
            let exists = path_exists(path);
            let extension = if exists {
                path_extension(path)
            } else {
                None
            };
            let probe = ImageProbe { exists, extension };
            match VideoCreationManager::check_probe(&probe) {
                Some(violation) => {
                    proof {
                        let presence = Seq::new(paths.len(), |k: int| k < i || exists);
                        let probes = disk_probes(paths, presence);
                        lemma_validation_skips_clean_prefix(probes, i as int);
                        assert(probes[i as int] == disk_probe(paths[i as int], exists));
                    }
                    return Err(violation);
                },
                None => {},
            }
            i = i + 1;
        }
        proof {
            let presence = Seq::new(paths.len(), |k: int| true);
            let probes = disk_probes(paths, presence);
            lemma_validation_skips_clean_prefix(probes, probes.len() as int);
        }
        Ok(())
    }

    /// Creates a pending job with the given identifier and creation time
    /// from raw paths and from what is known of the images' presence on
    /// disk. An empty list of images is rejected as an invalid state, a
    /// missing image as not found; nothing else is checked.
    pub fn create_job_with(
        image_paths: Vec<String>,
        presence: &Vec<bool>,
        output_path: String,
        video_id: VideoId,
        image_spec: Option<ImageSpec>,
        job_id: VideoCreationJobId,
        created_at: Timestamp,
    ) -> (r: DomainResult<VideoCreationJob>)
        ensures
            image_paths.len() == 0 ==> (r matches Err(DomainError::InvalidState(msg)) && msg@
                == "No images provided"@),
            image_paths.len() > 0 && !all_present(presence@, image_paths@.len()) ==> r matches Err(
                DomainError::FileNotFound,
            ),
            image_paths.len() > 0 && all_present(presence@, image_paths@.len()) ==> (r matches Ok(
                job,
            ) && job@ == (JobView {
                id: job_id@,
                request: RequestView {
                    image_paths: texts(image_paths@),
                    output_path: output_path@,
                    image_spec: spec_or_default(image_spec),
                    video_id: video_id@,
                },
                status: VideoCreationStatus::Pending,
                progress: None,
                created_at,
                completed_at: None,
                error_message: None,
            })),
    {
        let image_file_paths = VideoCreationManager::to_file_paths(&image_paths);
        let output_file_path = FilePath::new(output_path);
        let spec = match image_spec {
            Some(spec) => spec,
            None => ImageSpec::default(),
        };
        match VideoCreationRequest::with_presence(
            image_file_paths,
            presence,
            output_file_path,
            spec,
            video_id,
        ) {
            Ok(request) => Ok(VideoCreationJob::new_at(job_id, request, created_at)),
            Err(e) => Err(e),
        }
    }

    /// Creates a pending job from raw paths: the images are looked up on
    /// disk, the identifier is fresh, and the supplied image
    /// specification or else the default one applies. An empty list of
    /// images always fails as an invalid state; otherwise the job is as
    /// requested, or an image was found missing.
    pub fn create_job(
        image_paths: Vec<String>,
        output_path: String,
        video_id: VideoId,
        image_spec: Option<ImageSpec>,
    ) -> (r: DomainResult<VideoCreationJob>)
        ensures
            image_paths.len() == 0 ==> (r matches Err(DomainError::InvalidState(msg)) && msg@
                == "No images provided"@),
            image_paths.len() > 0 ==> (r matches Err(DomainError::FileNotFound)) || (r matches Ok(
                job,
            ) && job@ == (JobView {
                id: job@.id,
                request: RequestView {
                    image_paths: texts(image_paths@),
                    output_path: output_path@,
                    image_spec: spec_or_default(image_spec),
                    video_id: video_id@,
                },
                status: VideoCreationStatus::Pending,
                progress: None,
                created_at: job@.created_at,
                completed_at: None,
                error_message: None,
            }) && (exists|at: Timestamp| job@.id == job_id_text(at))),
    {
        let image_file_paths = VideoCreationManager::to_file_paths(&image_paths);
        let presence = probe_presence(&image_file_paths);
        if image_paths.len() > 0 && !VideoCreationManager::all_true(&presence) {
            return Err(DomainError::FileNotFound);
        }
        let job_id = VideoCreationJobId::generate();
        let created_at = Timestamp::now();
        VideoCreationManager::create_job_with(
            image_paths,
            &presence,
            output_path,
            video_id,
            image_spec,
            job_id,
            created_at,
        )
    }

    /// Whether every answer is `true`.
    fn all_true(presence: &Vec<bool>) -> (r: bool)
        ensures
            r == all_present(presence@, presence@.len()),
    {
        let mut i: usize = 0;
        while i < presence.len()
            invariant
                i <= presence.len(),
                forall|k: int| 0 <= k < i ==> is_present(presence@, k),
            decreases presence.len() - i,
        {
            if !presence[i] {
                assert(!is_present(presence@, i as int));
                return false;
            }
            i = i + 1;
        }
        true
    }

    /// Wraps each raw path as a `FilePath`, in order.
    fn to_file_paths(image_paths: &Vec<String>) -> (r: Vec<FilePath>)
        ensures
            path_texts(r@) == texts(image_paths@),
            r.len() == image_paths.len(),
    {
        let mut wrapped: Vec<FilePath> = Vec::new();
        let mut i: usize = 0;
        while i < image_paths.len()
            invariant
                i <= image_paths.len(),
                wrapped.len() == i,
                forall|k: int| 0 <= k < i ==> wrapped@[k]@ == image_paths@[k]@,
            decreases image_paths.len() - i,
        {
            wrapped.push(FilePath::new(image_paths[i].clone()));
            i = i + 1;
        }
        wrapped
    }
}

/// Validation passes over a prefix of probes that show no violation:
/// the outcome is that of the remaining probes.
pub proof fn lemma_validation_skips_clean_prefix(probes: Seq<ProbeView>, clean: int)
    requires
        0 <= clean <= probes.len(),
        forall|k: int| 0 <= k < clean ==> probe_violation(#[trigger] probes[k]) is None,
    ensures
        validation_outcome(probes) == validation_outcome(
            probes.subrange(clean, probes.len() as int),
        ),
    decreases clean,
{
    if clean == 0 {
        assert(probes.subrange(0, probes.len() as int) =~= probes);
    } else {
        let rest = probes.subrange(1, probes.len() as int);
        lemma_validation_skips_clean_prefix(rest, clean - 1);
        assert(rest.subrange(clean - 1, rest.len() as int) =~= probes.subrange(
            clean,
            probes.len() as int,
        ));
    }
}

/// Validation reports the first violation: where the probes before the
/// `i`-th show none and the `i`-th shows one, that one is the outcome,
/// whatever the later probes show. So a file that exists but has an
/// extension off the allow-list fails the validation with an invalid
/// content type, if every file before it exists and is allowed.
pub proof fn lemma_validation_reports_first_violation(
    probes: Seq<ProbeView>,
    i: int,
    violation: DomainError,
)
    requires
        0 <= i < probes.len(),
        forall|k: int| 0 <= k < i ==> probe_violation(#[trigger] probes[k]) is None,
        probe_violation(probes[i]) == Some(violation),
    ensures
        validation_outcome(probes) == Err::<(), DomainError>(violation),
{
    lemma_validation_skips_clean_prefix(probes, i);
    assert(probes.subrange(i, probes.len() as int)[0] == probes[i]);
}

/// Validation succeeds exactly when no probe shows a violation.
pub proof fn lemma_validation_succeeds_iff_clean(probes: Seq<ProbeView>)
    ensures
        validation_outcome(probes) is Ok <==> forall|k: int|
            0 <= k < probes.len() ==> probe_violation(#[trigger] probes[k]) is None,
    decreases probes.len(),
{
    if probes.len() > 0 {
        let rest = probes.subrange(1, probes.len() as int);
        lemma_validation_succeeds_iff_clean(rest);
        if validation_outcome(probes) is Ok {
            assert forall|k: int| 0 <= k < probes.len() implies probe_violation(
                #[trigger] probes[k],
            ) is None by {
                if k > 0 {
                    assert(probes[k] == rest[k - 1]);
                }
            }
        }
    }
}

/// Domain service: the store of job records, addressed by job
/// identifier. A record handed out is a copy: changing it changes
/// nothing in the store until it is written back.
pub trait VideoCreationRepository {
    /// The records held, by job identifier.
    spec fn jobs(&self) -> Map<Seq<char>, JobView>;

    /// Whether every operation of this store succeeds.
    spec fn never_fails(&self) -> bool;

    /// Every record that the store was handed and has stored, in the
    /// order in which it was handed them.
    spec fn written(&self) -> Seq<JobView>;

    /// Stores a copy of `job` under its identifier, replacing a record
    /// held under it. A store that fails holds what it held before.
    fn save_job(&mut self, job: &VideoCreationJob) -> (r: DomainResult<()>)
        ensures
            r is Ok ==> final(self).jobs() == old(self).jobs().insert(job@.id, job@),
            r is Ok ==> final(self).written() == old(self).written().push(job@),
            r is Err ==> final(self).jobs() == old(self).jobs(),
            r is Err ==> final(self).written() == old(self).written(),
            old(self).never_fails() ==> r is Ok,
            final(self).never_fails() == old(self).never_fails(),
    ;

    /// A copy of the record held under `id`, or `None` where there is
    /// none.
    fn find_job_by_id(&self, id: &VideoCreationJobId) -> (r: DomainResult<
        Option<VideoCreationJob>,
    >)
        ensures
            r matches Ok(Some(job)) ==> self.jobs().contains_key(id@) && job@ == self.jobs()[id@],
            r matches Ok(None) ==> !self.jobs().contains_key(id@),
            self.never_fails() ==> r is Ok,
    ;

    /// Copies of the records whose status is `status`: each such record
    /// once, and no other.
    fn find_jobs_by_status(&self, status: &VideoCreationStatus) -> (r: DomainResult<
        Vec<VideoCreationJob>,
    >)
        ensures
            r matches Ok(found) ==> {
                &&& forall|i: int|
                    0 <= i < found@.len() ==> {
                        &&& (#[trigger] found@[i])@.status == *status
                        &&& self.jobs().contains_key(found@[i]@.id)
                        &&& self.jobs()[found@[i]@.id] == found@[i]@
                    }
                &&& forall|i: int, j: int|
                    0 <= i < j < found@.len() ==> (#[trigger] found@[i])@.id != (
                    #[trigger] found@[j])@.id
                &&& forall|id: Seq<char>|
                    #![trigger self.jobs().contains_key(id)]
                    self.jobs().contains_key(id) && self.jobs()[id].status == *status
                        ==> exists|i: int| 0 <= i < found@.len() && (#[trigger] found@[i])@.id == id
            },
            self.never_fails() ==> r is Ok,
    ;

    /// Replaces the record held under the identifier of `job` by a copy
    /// of `job`, storing it where none was held. A store that fails holds
    /// what it held before.
    fn update_job(&mut self, job: &VideoCreationJob) -> (r: DomainResult<()>)
        ensures
            r is Ok ==> final(self).jobs() == old(self).jobs().insert(job@.id, job@),
            r is Ok ==> final(self).written() == old(self).written().push(job@),
            r is Err ==> final(self).jobs() == old(self).jobs(),
            r is Err ==> final(self).written() == old(self).written(),
            old(self).never_fails() ==> r is Ok,
            final(self).never_fails() == old(self).never_fails(),
    ;
}

} // verus!
