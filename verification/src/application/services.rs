//! Application services: the entry points of the callers.
use vstd::prelude::*;
use vstd::string::StringExecFns;
use crate::application::dto::{
    CreateSessionRequest,
    CreateVideoRequest,
    CreateVideoResponse,
    SessionResponse,
    StreamVideoRequest,
    StreamVideoResponse,
    VideoCreationJobStatusResponse,
    VideoCreationProgressResponse,
};
use crate::application::use_cases::{
    describes,
    end_stored_at,
    ended,
    open_session_at,
    opened_session,
    pause_stored,
    paused,
    resume_stored,
    resumed,
    StreamVideoUseCase,
};
use crate::domain::common::{DomainError, DomainResult, FilePath};
use crate::domain::streaming::{SessionRepository, SessionView};
use crate::domain::video::{
    content_range_text,
    requested_range,
    VideoId,
    VideoRepository,
    VideoStreamingService,
    VideoView,
};
use crate::domain::video_creation::{
    all_present,
    disk_probes,
    validation_outcome,
    ImageSpec,
    JobView,
    RequestView,
    VideoCreationJob,
    VideoCreationJobId,
    VideoCreationManager,
    VideoCreationProgress,
    VideoCreationRequest,
};
use crate::infrastructure::ffmpeg::{
    advanced,
    begun,
    ids_exhausted,
    locations_of,
    stored_beginning,
    expects,
    step_core,
    stores_job,
    CreationEvent,
    CreationRun,
    FFmpegVideoCreator,
};
use crate::infrastructure::repositories::{
    InMemorySessionRepository,
    InMemoryVideoCreationRepository,
};
use crate::shared::clock::{whole_seconds, Timestamp};
use crate::shared::config::Config;
use crate::shared::paths::path_exists;
use crate::shared::text::{decimal, format_decimal, optional_text, texts};

verus! {

/// Application service: streams parts of videos.
pub struct VideoStreamingAppService<R: VideoRepository, S: VideoStreamingService> {
    use_case: StreamVideoUseCase<R, S>,
}

impl<R: VideoRepository, S: VideoStreamingService> VideoStreamingAppService<R, S> {
    /// The videos that can be streamed, by video identifier.
    pub closed spec fn videos(self) -> Map<Seq<char>, VideoView> {
        self.use_case.videos()
    }

    /// Whether the repository never fails.
    pub closed spec fn reliable(self) -> bool {
        self.use_case.reliable()
    }

    /// The service over a repository and a reader of videos.
    pub fn new(video_repository: R, streaming_service: S) -> (r: Self)
        ensures
            r.videos() == video_repository.videos(),
            r.reliable() == video_repository.never_fails(),
    {
        VideoStreamingAppService {
            use_case: StreamVideoUseCase::new(video_repository, streaming_service),
        }
    }

    /// Serves the part of a video that a request asks for. The video
    /// must be held by the repository, it must not be empty, and the
    /// range that the header asks for must not be reversed; what the
    /// reader hands back for that range is served under the video's
    /// content type and the range asked for.
    pub fn stream_video(&self, request: StreamVideoRequest) -> (r: DomainResult<
        StreamVideoResponse,
    >)
        ensures
            !self.videos().contains_key(request.video_id@) ==> r is Err,
            self.reliable() && !self.videos().contains_key(request.video_id@) ==> r matches Err(
                DomainError::FileNotFound,
            ),
            self.videos().contains_key(request.video_id@) ==> ({
                let video = self.videos()[request.video_id@];
                let asked = requested_range(optional_text(request.range_header), video.total_size);
                &&& video.total_size == 0 || asked.start > asked.end ==> r is Err
                &&& self.reliable() && (video.total_size == 0 || asked.start > asked.end) ==> (
                r matches Err(DomainError::InvalidRange))
                &&& r is Ok ==> {
                    &&& r->Ok_0.video_id@ == request.video_id@
                    &&& r->Ok_0.content_type@ == video.content_type
                    &&& r->Ok_0.content_range@ == content_range_text(
                        asked.start,
                        asked.end,
                        video.total_size,
                    )
                }
            }),
    {
        self.use_case.execute(request)
    }
}

/// Application service: opens, pauses, resumes and ends streaming
/// sessions, which it keeps in memory.
pub struct SessionManagementAppService {
    sessions: InMemorySessionRepository,
}

impl SessionManagementAppService {
    /// The sessions held, by session identifier.
    pub closed spec fn sessions(self) -> Map<Seq<char>, SessionView> {
        self.sessions.sessions()
    }

    /// A service that holds no session yet.
    pub fn new() -> (r: Self)
        ensures
            r.sessions() == Map::<Seq<char>, SessionView>::empty(),
    {
        SessionManagementAppService { sessions: InMemorySessionRepository::new() }
    }

    /// Opens a session now for the client and the video of the request,
    /// starts it and keeps it: the session is active, has a fresh
    /// identifier and has asked for nothing yet.
    pub fn create_session(&mut self, request: CreateSessionRequest) -> (r: DomainResult<
        SessionResponse,
    >)
        ensures
            r is Ok,
            exists|at: Timestamp|
                {
                    let session = #[trigger] opened_session(
                        request.video_id@,
                        request.user_agent@,
                        request.ip_address@,
                        at,
                    );
                    &&& final(self).sessions() == old(self).sessions().insert(session.id, session)
                    &&& describes(r->Ok_0, session)
                },
    {
        let now = Timestamp::now();
        let r = open_session_at(&mut self.sessions, request, now);
        proof {
            let session = opened_session(
                request.video_id@,
                request.user_agent@,
                request.ip_address@,
                now,
            );
            assert(self.sessions() == old(self).sessions().insert(session.id, session));
        }
        r
    }

    /// Pauses the session under `session_id`. A session that is not
    /// held is not found; one that is not active, or has used up its
    /// count of pauses, is in an invalid state. Nothing changes where
    /// the call fails.
    pub fn pause_session(&mut self, session_id: &str) -> (r: DomainResult<SessionResponse>)
        ensures
            ({
                let held = old(self).sessions().contains_key(session_id@);
                let before = old(self).sessions()[session_id@];
                &&& r is Err ==> final(self).sessions() == old(self).sessions()
                &&& !held ==> (r matches Err(DomainError::FileNotFound))
                &&& held && !(before.state is Active) ==> (r matches Err(
                    DomainError::InvalidState(msg),
                ) && msg@ == "Session not active"@)
                &&& held && before.state is Active && before.metrics.pause_count == u32::MAX ==> (
                r matches Err(DomainError::InvalidState(msg)) && msg@
                    == "Pause counter exhausted"@)
                &&& held && before.state is Active && before.metrics.pause_count < u32::MAX ==> {
                    &&& r is Ok
                    &&& final(self).sessions() == old(self).sessions().insert(
                        before.id,
                        paused(before),
                    )
                    &&& describes(r->Ok_0, paused(before))
                }
            }),
    {
        pause_stored(&mut self.sessions, session_id)
    }

    /// Resumes the session under `session_id`. A session that is not
    /// held is not found; one that is not paused, or has used up its
    /// count of paused seconds, is in an invalid state. Nothing changes
    /// where the call fails.
    pub fn resume_session(&mut self, session_id: &str) -> (r: DomainResult<SessionResponse>)
        ensures
            ({
                let held = old(self).sessions().contains_key(session_id@);
                let before = old(self).sessions()[session_id@];
                &&& r is Err ==> final(self).sessions() == old(self).sessions()
                &&& !held ==> (r matches Err(DomainError::FileNotFound))
                &&& held && !(before.state is Paused) ==> (r matches Err(
                    DomainError::InvalidState(msg),
                ) && msg@ == "Session not paused"@)
                &&& held && before.state is Paused && before.metrics.total_pause_seconds
                    == u64::MAX ==> (r matches Err(DomainError::InvalidState(msg)) && msg@
                    == "Pause time exhausted"@)
                &&& held && before.state is Paused && before.metrics.total_pause_seconds
                    < u64::MAX ==> {
                    &&& r is Ok
                    &&& final(self).sessions() == old(self).sessions().insert(
                        before.id,
                        resumed(before),
                    )
                    &&& describes(r->Ok_0, resumed(before))
                }
            }),
    {
        resume_stored(&mut self.sessions, session_id)
    }

    /// Ends the session under `session_id` now, whatever its state. A
    /// session that is not held is not found, and nothing changes.
    pub fn end_session(&mut self, session_id: &str) -> (r: DomainResult<SessionResponse>)
        ensures
            ({
                let held = old(self).sessions().contains_key(session_id@);
                let before = old(self).sessions()[session_id@];
                &&& !held ==> (r matches Err(DomainError::FileNotFound)) && final(self).sessions()
                    == old(self).sessions()
                &&& held ==> r is Ok && exists|at: Timestamp|
                    {
                        let after = #[trigger] ended(before, at);
                        &&& final(self).sessions() == old(self).sessions().insert(after.id, after)
                        &&& describes(r->Ok_0, after)
                    }
            }),
    {
        let now = Timestamp::now();
        let r = end_stored_at(&mut self.sessions, session_id, now);
        proof {
            if r is Ok {
                let after = ended(old(self).sessions()[session_id@], now);
                assert(self.sessions() == old(self).sessions().insert(after.id, after));
            }
        }
        r
    }
}

/// The text of a point in time in a response: the milliseconds since
/// the epoch.
pub open spec fn time_text(at: Timestamp) -> Seq<char> {
    decimal(at.total_millis())
}

/// The text of an optional point in time in a response.
pub open spec fn optional_time_text(at: Option<Timestamp>) -> Option<Seq<char>> {
    match at {
        Some(t) => Some(time_text(t)),
        None => None,
    }
}

/// What a job's progress comes to in a response.
pub open spec fn progress_summary(progress: Option<VideoCreationProgress>) -> Option<
    VideoCreationProgressResponse,
> {
    match progress {
        Some(p) => Some(
            VideoCreationProgressResponse {
                current_frame: p.current_frame,
                total_frames: p.total_frames,
                percentage_basis_points: p.percentage_basis_points,
                estimated_time_remaining: p.estimated_time_remaining_seconds,
            },
        ),
        None => None,
    }
}

/// Whether a response reports the state of a job: its identifier, its
/// video, the name of its status, its progress, the times of its
/// creation and its end, its error message, and the whole seconds it
/// took where it has ended.
pub open spec fn reports(response: VideoCreationJobStatusResponse, job: VideoCreationJob) -> bool {
    &&& response.job_id@ == job.id@
    &&& response.video_id@ == job.request.video_id@
    &&& response.status@ == job.status.name()
    &&& response.progress == progress_summary(job.progress)
    &&& response.created_at@ == time_text(job.created_at)
    &&& optional_text(response.completed_at) == optional_time_text(job.completed_at)
    &&& optional_text(response.error_message) == optional_text(job.error_message)
    &&& response.duration_seconds == match job.elapsed() {
        Some(span) => Some(whole_seconds(span) as u64),
        None => None,
    }
}

/// The response that reports the state of a job.
pub fn status_response(job: &VideoCreationJob) -> (r: VideoCreationJobStatusResponse)
    ensures
        reports(r, *job),
{
    let progress = match job.progress {
        Some(p) => Some(
            VideoCreationProgressResponse {
                current_frame: p.current_frame,
                total_frames: p.total_frames,
                percentage_basis_points: p.percentage_basis_points,
                estimated_time_remaining: p.estimated_time_remaining_seconds,
            },
        ),
        None => None,
    };
    let completed_at = match job.completed_at {
        Some(at) => Some(format_decimal(at.as_millis())),
        None => None,
    };
    let error_message = match &job.error_message {
        Some(text) => Some(text.clone()),
        None => None,
    };
    let duration_seconds = match job.duration() {
        Some(span) => {
            let seconds: u128 = span / 1_000_000_000;
            Some(seconds as u64)
        },
        None => None,
    };
    VideoCreationJobStatusResponse {
        job_id: String::from_str(job.id.as_str()),
        video_id: String::from_str(job.request.video_id.as_str()),
        status: job.status.label(),
        progress,
        created_at: format_decimal(job.created_at.as_millis()),
        completed_at,
        error_message,
        duration_seconds,
    }
}

/// Whether a response tells what became of a job: its identifier, its
/// video, the name of its status, the number of its frames, the playing
/// time of its video and the time of its creation.
pub open spec fn announces(response: CreateVideoResponse, job: VideoCreationJob) -> bool {
    &&& response.job_id@ == job.id@
    &&& response.video_id@ == job.request.video_id@
    &&& response.status@ == job.status.name()
    &&& response.total_frames == job.request.frames()
    &&& response.estimated_duration == job.request.total_seconds()
    &&& response.created_at@ == time_text(job.created_at)
}

/// The response that tells what became of a job. A job whose video
/// would play longer than 32 bits can count in seconds is refused as
/// out of range.
pub fn creation_response(job: &VideoCreationJob) -> (r: DomainResult<CreateVideoResponse>)
    ensures
        job.request.total_seconds() <= u32::MAX ==> (r matches Ok(response) && announces(
            response,
            *job,
        )),
        job.request.total_seconds() > u32::MAX ==> r matches Err(DomainError::InvalidRange),
{
    let estimated_duration = match job.request.checked_total_duration() {
        Some(seconds) => seconds,
        None => {
            return Err(DomainError::InvalidRange);
        },
    };
    Ok(
        CreateVideoResponse {
            job_id: String::from_str(job.id.as_str()),
            video_id: String::from_str(job.request.video_id.as_str()),
            status: job.status.label(),
            total_frames: job.request.frame_count(),
            estimated_duration,
            created_at: format_decimal(job.created_at.as_millis()),
        },
    )
}

/// The image specification that a request asks for, if it gives all
/// three of width, height and duration per image.
pub open spec fn requested_spec(request: CreateVideoRequest) -> Option<ImageSpec> {
    match (request.width, request.height, request.duration_per_image) {
        (Some(width), Some(height), Some(duration_seconds)) => Some(
            ImageSpec { width, height, duration_seconds },
        ),
        _ => None,
    }
}

/// The image specification that applies to a request: the one it asks
/// for, which must be valid, or else the default of the configuration.
pub fn choose_image_spec(request: &CreateVideoRequest, config: &Config) -> (r: DomainResult<
    ImageSpec,
>)
    ensures
        requested_spec(*request) is Some && requested_spec(*request)->0.valid() ==> r == Ok::<
            ImageSpec,
            DomainError,
        >(requested_spec(*request)->0),
        requested_spec(*request) is Some && !requested_spec(*request)->0.valid() ==> r == Err::<
            ImageSpec,
            DomainError,
        >(DomainError::InvalidRange),
        requested_spec(*request) is None ==> r == Ok::<ImageSpec, DomainError>(
            ImageSpec {
                width: config.default_image_width,
                height: config.default_image_height,
                duration_seconds: config.default_duration_per_image,
            },
        ),
{
    match (request.width, request.height, request.duration_per_image) {
        (Some(width), Some(height), Some(duration)) => ImageSpec::new(width, height, duration),
        _ => Ok(config.default_image_spec()),
    }
}

/// Asks the file system, for each path in turn, whether it exists.
fn probe_images(image_paths: &[String]) -> (r: Vec<bool>)
    ensures
        r@.len() == image_paths@.len(),
{
    let mut presence: Vec<bool> = Vec::new();
    let mut i: usize = 0;
    while i < image_paths.len()
        invariant
            i <= image_paths@.len(),
            presence@.len() == i,
        decreases image_paths.len() - i,
    {
        presence.push(path_exists(image_paths[i].as_str()));
        i = i + 1;
    }
    presence
}

/// Whether `r` reports the outcome of a validation: `true` where it
/// succeeded, and its violation where it did not.
pub open spec fn validated(r: DomainResult<bool>, outcome: Result<(), DomainError>) -> bool {
    match outcome {
        Ok(_) => r == Ok::<bool, DomainError>(true),
        Err(violation) => r == Err::<bool, DomainError>(violation),
    }
}

/// Wraps each raw path as a `FilePath`, in order.
fn wrap_paths(image_paths: &[String]) -> (r: Vec<FilePath>)
    ensures
        r@.len() == image_paths@.len(),
        forall|i: int| 0 <= i < r@.len() ==> (#[trigger] r@[i])@ == image_paths@[i]@,
{
    let mut wrapped: Vec<FilePath> = Vec::new();
    let mut i: usize = 0;
    while i < image_paths.len()
        invariant
            i <= image_paths@.len(),
            wrapped@.len() == i,
            forall|k: int| 0 <= k < i ==> (#[trigger] wrapped@[k])@ == image_paths@[k]@,
        decreases image_paths.len() - i,
    {
        wrapped.push(FilePath::new(image_paths[i].clone()));
        i = i + 1;
    }
    wrapped
}

/// Application service: turns images into videos and reports on the
/// jobs, which it keeps in memory.
pub struct VideoCreationAppService {
    config: Config,
    creator: FFmpegVideoCreator<InMemoryVideoCreationRepository>,
}

impl VideoCreationAppService {
    /// The jobs held, by job identifier.
    pub closed spec fn jobs(self) -> Map<Seq<char>, JobView> {
        self.creator.jobs()
    }

    /// Every job record that was stored, in order.
    pub closed spec fn written(self) -> Seq<JobView> {
        self.creator.written()
    }

    /// The configuration.
    pub closed spec fn config(self) -> Config {
        self.config
    }

    /// A service with the given configuration that holds no job yet.
    pub fn new(config: Config) -> (r: Self)
        ensures
            r.jobs() == Map::<Seq<char>, JobView>::empty(),
            r.written() == Seq::<JobView>::empty(),
            r.config() == config,
    {
        VideoCreationAppService {
            config,
            creator: FFmpegVideoCreator::new(InMemoryVideoCreationRepository::new()),
        }
    }

    /// Reports the state of the job under `job_id`. A job that is not
    /// held is not found.
    pub fn get_job_status(&self, job_id: &str) -> (r: DomainResult<VideoCreationJobStatusResponse>)
        ensures
            !self.jobs().contains_key(job_id@) ==> r matches Err(DomainError::FileNotFound),
            self.jobs().contains_key(job_id@) ==> (r matches Ok(response) && exists|
                job: VideoCreationJob,
            |
                job@ == self.jobs()[job_id@] && #[trigger] reports(response, job)),
    {
        let id = VideoCreationJobId::new(String::from_str(job_id));
        match self.creator.get_job_status(&id) {
            Ok(Some(job)) => Ok(status_response(&job)),
            Ok(None) => Err(DomainError::FileNotFound),
            Err(e) => Err(e),
        }
    }

    /// Validates the images at the given paths on disk, in order: the
    /// result is `true`, or the first violation that the disk shows: a
    /// path that does not exist is not found, and a file whose
    /// extension, whatever its case, is absent or off the allow-list has
    /// an invalid content type. No paths at all validate.
    pub fn validate_images(&self, image_paths: &[String]) -> (r: DomainResult<bool>)
        ensures
            image_paths@.len() == 0 ==> r == Ok::<bool, DomainError>(true),
            exists|presence: Seq<bool>|
                presence.len() == image_paths@.len() && validated(
                    r,
                    validation_outcome(#[trigger] disk_probes(texts(image_paths@), presence)),
                ),
    {
        let file_paths = wrap_paths(image_paths);
        assert(crate::domain::video_creation::path_texts(file_paths@) =~= texts(image_paths@));
        match VideoCreationManager::validate_images(file_paths.as_slice()) {
            Ok(_) => Ok(true),
            Err(e) => Err(e),
        }
    }
}

/// The image specification that applies to a request under a
/// configuration: the one it asks for, or else the default of the
/// configuration; `None` where the one it asks for is not valid.
pub open spec fn chosen_spec(request: CreateVideoRequest, config: Config) -> Option<ImageSpec> {
    match requested_spec(request) {
        Some(spec) => if spec.valid() {
            Some(spec)
        } else {
            None
        },
        None => Some(
            ImageSpec {
                width: config.default_image_width,
                height: config.default_image_height,
                duration_seconds: config.default_duration_per_image,
            },
        ),
    }
}

/// The domain request that a request for a video stands for under the
/// image specification `spec`.
pub open spec fn domain_request(request: CreateVideoRequest, spec: ImageSpec) -> RequestView {
    RequestView {
        image_paths: texts(request.image_paths@),
        output_path: request.output_path@,
        image_spec: spec,
        video_id: request.video_id@,
    }
}

/// What the beginning of a conversion for a request comes to once the
/// request has passed every check. The conversion has begun: its frame
/// list names the images where they lie against the working directory,
/// and the store was handed its job and holds it under an identifier
/// that it did not hold before. Or the store holds every identifier
/// that can be issued for the time of the call, and the call is refused
/// as an invalid state.
pub open spec fn begun_or_refused(
    r: DomainResult<CreationRun>,
    request: RequestView,
    working_dir: Result<String, String>,
    before: Map<Seq<char>, JobView>,
    written_before: Seq<JobView>,
    after: Map<Seq<char>, JobView>,
    written_after: Seq<JobView>,
) -> bool {
    match r {
        Ok(run) => {
            &&& begun(run, request, locations_of(request, working_dir))
            &&& stored_beginning(before, written_before, run, after, written_after)
        },
        Err(refusal) => {
            &&& exists|at: Timestamp| #[trigger] ids_exhausted(before, at)
            &&& refusal is InvalidState
            &&& refusal->InvalidState_0@ == "No free job identifier"@
        },
    }
}

impl VideoCreationAppService {
    /// Begins the conversion that a request asks for, given what is
    /// known of the presence of its images on disk: the `i`-th answer
    /// tells whether the `i`-th image exists.
    ///
    /// The request is checked first, and nothing is stored where a check
    /// fails: an image specification that is not valid is out of range;
    /// no images are an invalid state; an image that is missing is not
    /// found; a video that would play longer than 32 bits can count in
    /// seconds is out of range; and without the encoder the call fails
    /// with an I/O failure. Otherwise a job is made for the request
    /// under an identifier that the store does not hold yet, stored and
    /// started, and the conversion has begun.
    pub fn begin_video_with(
        &mut self,
        request: &CreateVideoRequest,
        presence: &Vec<bool>,
        encoder_available: bool,
        working_dir: &Result<String, String>,
    ) -> (r: DomainResult<CreationRun>)
        ensures
            final(self).config() == old(self).config(),
            r is Err ==> final(self).jobs() == old(self).jobs() && final(self).written() == old(self).written(),
            ({
                let chosen = chosen_spec(*request, old(self).config());
                let count = request.image_paths@.len();
                let present = all_present(presence@, count);
                let fits = count * chosen->0.duration_seconds <= u32::MAX;
                &&& chosen is None ==> (r matches Err(DomainError::InvalidRange))
                &&& chosen is Some && count == 0 ==> (r matches Err(DomainError::InvalidState(msg))
                    && msg@ == "No images provided"@)
                &&& chosen is Some && count > 0 && !present ==> (r matches Err(
                    DomainError::FileNotFound,
                ))
                &&& chosen is Some && count > 0 && present && !fits ==> (r matches Err(
                    DomainError::InvalidRange,
                ))
                &&& chosen is Some && count > 0 && present && fits && !encoder_available ==> (
                r matches Err(DomainError::IoError(msg)) && msg@ == "FFmpeg not found on system"@)
                &&& chosen is Some && count > 0 && present && fits && encoder_available
                    ==> begun_or_refused(
                    r,
                    domain_request(*request, chosen->0),
                    *working_dir,
                    old(self).jobs(),
                    old(self).written(),
                    final(self).jobs(),
                    final(self).written(),
                )
            }),
    {
        let spec = match choose_image_spec(request, &self.config) {
            Ok(spec) => spec,
            Err(e) => {
                return Err(e);
            },
        };
        let image_paths = wrap_paths(request.image_paths.as_slice());
        assert(crate::domain::video_creation::path_texts(image_paths@) =~= texts(
            request.image_paths@,
        ));
        let domain_request = match VideoCreationRequest::with_presence(
            image_paths,
            presence,
            FilePath::new(request.output_path.clone()),
            spec,
            VideoId::new(request.video_id.clone()),
        ) {
            Ok(domain_request) => domain_request,
            Err(e) => {
                return Err(e);
            },
        };
        if domain_request.checked_total_duration().is_none() {
            return Err(DomainError::InvalidRange);
        }
        self.creator.begin(&domain_request, encoder_available, working_dir)
    }

    /// Begins the conversion that a request asks for, after asking the
    /// file system for each of its images. The outcome is that of
    /// `begin_video_with` for what the file system answered.
    pub fn begin_video(
        &mut self,
        request: &CreateVideoRequest,
        encoder_available: bool,
        working_dir: &Result<String, String>,
    ) -> (r: DomainResult<CreationRun>)
        ensures
            final(self).config() == old(self).config(),
            r is Err ==> final(self).jobs() == old(self).jobs() && final(self).written() == old(self).written(),
            ({
                let chosen = chosen_spec(*request, old(self).config());
                let count = request.image_paths@.len();
                let fits = count * chosen->0.duration_seconds <= u32::MAX;
                &&& chosen is None ==> (r matches Err(DomainError::InvalidRange))
                &&& chosen is Some && count == 0 ==> (r matches Err(DomainError::InvalidState(msg))
                    && msg@ == "No images provided"@)
                &&& chosen is Some && count > 0 ==> {
                    ||| (r matches Err(DomainError::FileNotFound))
                    ||| (!fits && (r matches Err(DomainError::InvalidRange)))
                    ||| (fits && !encoder_available && (r matches Err(DomainError::IoError(msg))
                        && msg@ == "FFmpeg not found on system"@))
                    ||| (fits && encoder_available && begun_or_refused(
                        r,
                        domain_request(*request, chosen->0),
                        *working_dir,
                        old(self).jobs(),
                        old(self).written(),
                        final(self).jobs(),
                        final(self).written(),
                    ))
                }
            }),
    {
        let presence = probe_images(request.image_paths.as_slice());
        self.begin_video_with(request, &presence, encoder_available, working_dir)
    }

    /// Takes a conversion one step further with what the outside work
    /// came to. An event that the conversion does not wait for is
    /// refused as an invalid state and changes nothing; every other
    /// event is accepted, and the job is stored whenever it has changed.
    pub fn advance_video(&mut self, run: &mut CreationRun, event: CreationEvent) -> (r:
        DomainResult<()>)
        ensures
            final(self).config() == old(self).config(),
            !expects(old(run).phase(), event.kind()) ==> {
                &&& r matches Err(DomainError::InvalidState(msg))
                &&& r->Err_0->InvalidState_0@ == "Unexpected event"@
                &&& *final(run) == *old(run)
                &&& final(self).jobs() == old(self).jobs()
                &&& final(self).written() == old(self).written()
            },
            expects(old(run).phase(), event.kind()) ==> {
                &&& r is Ok
                &&& advanced(*old(run), event, *final(run))
                &&& final(run).failure is None ==> final(run).course() == step_core(
                    old(run).course(),
                    event.kind(),
                )
                &&& final(run).failure is None && stores_job(*old(run), event) ==> {
                    &&& final(self).jobs() == old(self).jobs().insert(
                        final(run).job@.id,
                        final(run).job@,
                    )
                    &&& final(self).written() == old(self).written().push(final(run).job@)
                }
                &&& final(run).failure is Some || !stores_job(*old(run), event) ==> {
                    &&& final(self).jobs() == old(self).jobs()
                    &&& final(self).written() == old(self).written()
                }
            },
            old(run).failure is None && (event.kind() is EncoderSucceeded
                ==> old(run).job.status is InProgress) ==> final(run).failure is None,
    {
        self.creator.advance(run, event)
    }

    /// The response for a conversion that has ended: what became of its
    /// job. A conversion that has not ended is an invalid state; one
    /// whose store failed fails with that failure.
    pub fn finish_video(&self, run: CreationRun) -> (r: DomainResult<CreateVideoResponse>)
        ensures
            !(run.phase() is Finished) ==> (r matches Err(DomainError::InvalidState(msg)) && msg@
                == "Conversion not finished"@),
            run.phase() is Finished && run.failure is Some ==> r == Err::<
                CreateVideoResponse,
                DomainError,
            >(run.failure->0),
            run.phase() is Finished && run.failure is None && run.job.request.total_seconds()
                <= u32::MAX ==> (r matches Ok(response) && announces(response, run.job)),
            run.phase() is Finished && run.failure is None && run.job.request.total_seconds()
                > u32::MAX ==> (r matches Err(DomainError::InvalidRange)),
    {
        if !run.is_finished() {
            return Err(DomainError::InvalidState(String::from_str("Conversion not finished")));
        }
        match run.into_result() {
            Ok(job) => creation_response(&job),
            Err(e) => Err(e),
        }
    }
}

} // verus!
