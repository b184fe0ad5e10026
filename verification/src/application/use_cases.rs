//! Use cases: streaming a part of a video, and opening, pausing,
//! resuming and ending streaming sessions.
use vstd::prelude::*;
use vstd::string::StringExecFns;
use crate::application::dto::{
    CreateSessionRequest,
    SessionMetricsResponse,
    SessionResponse,
    StreamVideoRequest,
    StreamVideoResponse,
};
use crate::domain::common::{ByteRange, DomainError, DomainResult};
use crate::domain::streaming::{
    session_id_text,
    ClientInfo,
    ClientView,
    SessionId,
    SessionManager,
    SessionMetrics,
    SessionRepository,
    SessionState,
    SessionView,
    StreamingSession,
};
use crate::domain::video::{
    content_range_text,
    format_range,
    requested_range,
    RangeParser,
    Video,
    VideoChunk,
    VideoId,
    VideoRepository,
    VideoStreamingService,
    VideoView,
};
use crate::shared::clock::{whole_seconds, Timestamp};
use crate::shared::text::optional_text;

verus! {

/// The response that serves `chunk` of `video`.
pub fn stream_response(video_id: &VideoId, video: &Video, range: &ByteRange, chunk: VideoChunk) -> (r:
    StreamVideoResponse)
    ensures
        r.video_id@ == video_id@,
        r.content_type@ == video.metadata.content_type@,
        r.content_range@ == content_range_text(range.start, range.end, range.total_size),
        r.data == chunk.data,
{
    StreamVideoResponse {
        video_id: String::from_str(video_id.as_str()),
        content_type: String::from_str(video.metadata.content_type.as_str()),
        content_range: format_range(range.start, range.end, range.total_size),
        data: chunk.data,
    }
}

/// Use case: stream a part of a video.
pub struct StreamVideoUseCase<R: VideoRepository, S: VideoStreamingService> {
    video_repository: R,
    streaming_service: S,
}

impl<R: VideoRepository, S: VideoStreamingService> StreamVideoUseCase<R, S> {
    /// The videos that can be streamed, by video identifier.
    pub closed spec fn videos(self) -> Map<Seq<char>, VideoView> {
        self.video_repository.videos()
    }

    /// Whether the repository never fails.
    pub closed spec fn reliable(self) -> bool {
        self.video_repository.never_fails()
    }

    /// The use case over a repository and a reader of videos.
    pub fn new(video_repository: R, streaming_service: S) -> (r: Self)
        ensures
            r.videos() == video_repository.videos(),
            r.reliable() == video_repository.never_fails(),
    {
        StreamVideoUseCase { video_repository, streaming_service }
    }

    /// The repository.
    pub fn into_repository(self) -> (r: R)
        ensures
            r.videos() == self.videos(),
            r.never_fails() == self.reliable(),
    {
        self.video_repository
    }

    /// Serves the part of a video that a request asks for. The video
    /// must be held by the repository, it must not be empty, and the
    /// range that the header asks for must not be reversed; the reader
    /// is then asked for the bytes of that range, and what it hands back
    /// is served under the video's content type and the range asked for.
    pub fn execute(&self, request: StreamVideoRequest) -> (r: DomainResult<StreamVideoResponse>)
        ensures
            !self.videos().contains_key(request.video_id@) ==> r is Err,
            self.reliable() && !self.videos().contains_key(request.video_id@) ==> r matches Err(
                DomainError::FileNotFound,
            ),
            self.videos().contains_key(request.video_id@) ==> ({
                let video = self.videos()[request.video_id@];
                let asked = requested_range(optional_text(request.range_header), video.total_size);
                &&& video.total_size == 0 || asked.start > asked.end ==> r is Err
                &&& self.reliable() && (video.total_size == 0 || asked.start > asked.end) ==> (
                r matches Err(DomainError::InvalidRange))
                &&& r is Ok ==> {
                    &&& r->Ok_0.video_id@ == request.video_id@
                    &&& r->Ok_0.content_type@ == video.content_type
                    &&& r->Ok_0.content_range@ == content_range_text(
                        asked.start,
                        asked.end,
                        video.total_size,
                    )
                }
            }),
    {
        let video_id = VideoId::new(request.video_id);
        let video = match self.video_repository.find_by_id(&video_id) {
            Ok(Some(video)) => video,
            Ok(None) => {
                return Err(DomainError::FileNotFound);
            },
            Err(e) => {
                return Err(e);
            },
        };
        if video.metadata.total_size == 0 {
            return Err(DomainError::InvalidRange);
        }
        let header = match &request.range_header {
            Some(text) => Some(text.as_str()),
            None => None,
        };
        let range = match RangeParser::parse_range_header(header, video.metadata.total_size) {
            Ok(range) => range,
            Err(e) => {
                return Err(e);
            },
        };
        match self.streaming_service.read_chunk(&video, &range) {
            Ok(chunk) => Ok(stream_response(&video_id, &video, &range, chunk)),
            Err(e) => Err(e),
        }
    }
}

/// What a session's metrics come to in a response: the counts, and the
/// whole seconds from its start to its end where it has ended.
pub open spec fn metrics_summary(metrics: SessionMetrics) -> SessionMetricsResponse {
    SessionMetricsResponse {
        bytes_requested: metrics.bytes_requested,
        chunks_requested: metrics.chunks_requested,
        pause_count: metrics.pause_count,
        duration_seconds: match metrics.elapsed() {
            Some(span) => Some(whole_seconds(span) as u64),
            None => None,
        },
    }
}

/// Whether a response describes a session: its identifier, its video,
/// the name of its state and the summary of its metrics.
pub open spec fn describes(response: SessionResponse, session: SessionView) -> bool {
    &&& response.session_id@ == session.id
    &&& response.video_id@ == session.video_id
    &&& response.state@ == session.state.name()
    &&& response.metrics == metrics_summary(session.metrics)
}

/// The response that describes a session.
pub fn session_response(session: &StreamingSession) -> (r: SessionResponse)
    ensures
        describes(r, session@),
{
    let duration_seconds = match session.metrics.duration() {
        Some(span) => {
            let seconds: u128 = span / 1_000_000_000;
            Some(seconds as u64)
        },
        None => None,
    };
    SessionResponse {
        session_id: String::from_str(session.id.as_str()),
        video_id: String::from_str(session.video_id.as_str()),
        state: session.state.label(),
        metrics: SessionMetricsResponse {
            bytes_requested: session.metrics.bytes_requested,
            chunks_requested: session.metrics.chunks_requested,
            pause_count: session.metrics.pause_count,
            duration_seconds,
        },
    }
}

/// The session that a request opens at the time `at`: active from the
/// start, with nothing asked for yet.
pub open spec fn opened_session(
    video_id: Seq<char>,
    user_agent: Seq<char>,
    ip_address: Seq<char>,
    at: Timestamp,
) -> SessionView {
    SessionView {
        id: session_id_text(at),
        video_id,
        client_info: ClientView {
            user_agent,
            ip_address,
            supported_formats: seq!["video/webm"@, "video/mp4"@],
        },
        state: SessionState::Active,
        metrics: SessionMetrics {
            start_time: at,
            end_time: None,
            bytes_requested: 0,
            chunks_requested: 0,
            pause_count: 0,
            total_pause_seconds: 0,
        },
    }
}

/// A session after a pause: paused, with one more pause counted.
pub open spec fn paused(session: SessionView) -> SessionView {
    SessionView {
        state: SessionState::Paused,
        metrics: SessionMetrics {
            pause_count: (session.metrics.pause_count + 1) as u32,
            ..session.metrics
        },
        ..session
    }
}

/// A session after it has resumed: active, with one more second of
/// pause counted.
pub open spec fn resumed(session: SessionView) -> SessionView {
    SessionView {
        state: SessionState::Active,
        metrics: SessionMetrics {
            total_pause_seconds: (session.metrics.total_pause_seconds + 1) as u64,
            ..session.metrics
        },
        ..session
    }
}

/// A session after its end at the time `at`.
pub open spec fn ended(session: SessionView, at: Timestamp) -> SessionView {
    SessionView {
        state: SessionState::Ended,
        metrics: SessionMetrics { end_time: Some(at), ..session.metrics },
        ..session
    }
}

/// Opens a session at the time `now` and stores it. Where the store
/// fails nothing is stored.
pub fn open_session_at<R: SessionRepository>(
    repository: &mut R,
    request: CreateSessionRequest,
    now: Timestamp,
) -> (r: DomainResult<SessionResponse>)
    ensures
        final(repository).never_fails() == old(repository).never_fails(),
        old(repository).never_fails() ==> r is Ok,
        r is Err ==> final(repository).sessions() == old(repository).sessions(),
        r matches Ok(response) ==> ({
            let session = opened_session(
                request.video_id@,
                request.user_agent@,
                request.ip_address@,
                now,
            );
            &&& final(repository).sessions() == old(repository).sessions().insert(
                session.id,
                session,
            )
            &&& describes(response, session)
        }),
{
    let video_id = VideoId::new(request.video_id);
    let client_info = ClientInfo::new(request.user_agent, request.ip_address);
    let mut session = SessionManager::create_session_at(video_id, client_info, now);
    let _ = session.start_at(now);
    match repository.save(&session) {
        Ok(_) => Ok(session_response(&session)),
        Err(e) => Err(e),
    }
}

/// Looks up the session under `session_id`.
fn find_session<R: SessionRepository>(repository: &R, session_id: &str) -> (r: DomainResult<
    StreamingSession,
>)
    ensures
        r matches Ok(session) ==> repository.sessions().contains_key(session_id@) && session@
            == repository.sessions()[session_id@],
        !repository.sessions().contains_key(session_id@) ==> r is Err,
        repository.never_fails() && !repository.sessions().contains_key(session_id@)
            ==> r matches Err(DomainError::FileNotFound),
        repository.never_fails() && repository.sessions().contains_key(session_id@) ==> r is Ok,
{
    let id = SessionId::new(String::from_str(session_id));
    match repository.find_by_id(&id) {
        Ok(Some(session)) => Ok(session),
        Ok(None) => Err(DomainError::FileNotFound),
        Err(e) => Err(e),
    }
}

/// Pauses the session under `session_id` and stores it. The session
/// must be held, active, and not have used up its count of pauses;
/// otherwise nothing changes.
pub fn pause_stored<R: SessionRepository>(repository: &mut R, session_id: &str) -> (r: DomainResult<
    SessionResponse,
>)
    ensures
        final(repository).never_fails() == old(repository).never_fails(),
        r is Err ==> final(repository).sessions() == old(repository).sessions(),
        r matches Ok(response) ==> ({
            let before = old(repository).sessions()[session_id@];
            &&& old(repository).sessions().contains_key(session_id@)
            &&& before.state is Active
            &&& before.metrics.pause_count < u32::MAX
            &&& final(repository).sessions() == old(repository).sessions().insert(
                before.id,
                paused(before),
            )
            &&& describes(response, paused(before))
        }),
        !old(repository).sessions().contains_key(session_id@) ==> r is Err,
        old(repository).never_fails() ==> ({
            let held = old(repository).sessions().contains_key(session_id@);
            let before = old(repository).sessions()[session_id@];
            &&& !held ==> (r matches Err(DomainError::FileNotFound))
            &&& held && !(before.state is Active) ==> (r matches Err(
                DomainError::InvalidState(msg),
            ) && msg@ == "Session not active"@)
            &&& held && before.state is Active && before.metrics.pause_count == u32::MAX ==> (
            r matches Err(DomainError::InvalidState(msg)) && msg@ == "Pause counter exhausted"@)
            &&& held && before.state is Active && before.metrics.pause_count < u32::MAX ==> r is Ok
        }),
{
    let mut session = match find_session(repository, session_id) {
        Ok(session) => session,
        Err(e) => {
            return Err(e);
        },
    };
    if session.state == SessionState::Active && session.metrics.pause_count == u32::MAX {
        return Err(DomainError::InvalidState(String::from_str("Pause counter exhausted")));
    }
    match session.pause() {
        Ok(_) => {},
        Err(e) => {
            return Err(e);
        },
    }
    match repository.save(&session) {
        Ok(_) => Ok(session_response(&session)),
        Err(e) => Err(e),
    }
}

/// Resumes the session under `session_id` and stores it. The session
/// must be held, paused, and not have used up its count of paused
/// seconds; otherwise nothing changes.
pub fn resume_stored<R: SessionRepository>(repository: &mut R, session_id: &str) -> (r:
    DomainResult<SessionResponse>)
    ensures
        final(repository).never_fails() == old(repository).never_fails(),
        r is Err ==> final(repository).sessions() == old(repository).sessions(),
        r matches Ok(response) ==> ({
            let before = old(repository).sessions()[session_id@];
            &&& old(repository).sessions().contains_key(session_id@)
            &&& before.state is Paused
            &&& before.metrics.total_pause_seconds < u64::MAX
            &&& final(repository).sessions() == old(repository).sessions().insert(
                before.id,
                resumed(before),
            )
            &&& describes(response, resumed(before))
        }),
        !old(repository).sessions().contains_key(session_id@) ==> r is Err,
        old(repository).never_fails() ==> ({
            let held = old(repository).sessions().contains_key(session_id@);
            let before = old(repository).sessions()[session_id@];
            &&& !held ==> (r matches Err(DomainError::FileNotFound))
            &&& held && !(before.state is Paused) ==> (r matches Err(
                DomainError::InvalidState(msg),
            ) && msg@ == "Session not paused"@)
            &&& held && before.state is Paused && before.metrics.total_pause_seconds == u64::MAX
                ==> (r matches Err(DomainError::InvalidState(msg)) && msg@
                == "Pause time exhausted"@)
            &&& held && before.state is Paused && before.metrics.total_pause_seconds < u64::MAX
                ==> r is Ok
        }),
{
    let mut session = match find_session(repository, session_id) {
        Ok(session) => session,
        Err(e) => {
            return Err(e);
        },
    };
    if session.state == SessionState::Paused && session.metrics.total_pause_seconds == u64::MAX {
        return Err(DomainError::InvalidState(String::from_str("Pause time exhausted")));
    }
    match session.resume() {
        Ok(_) => {},
        Err(e) => {
            return Err(e);
        },
    }
    match repository.save(&session) {
        Ok(_) => Ok(session_response(&session)),
        Err(e) => Err(e),
    }
}

/// Ends the session under `session_id` at the time `now` and stores
/// it. The session must be held; otherwise nothing changes.
pub fn end_stored_at<R: SessionRepository>(repository: &mut R, session_id: &str, now: Timestamp) -> (r:
    DomainResult<SessionResponse>)
    ensures
        final(repository).never_fails() == old(repository).never_fails(),
        r is Err ==> final(repository).sessions() == old(repository).sessions(),
        r matches Ok(response) ==> ({
            let before = old(repository).sessions()[session_id@];
            &&& old(repository).sessions().contains_key(session_id@)
            &&& final(repository).sessions() == old(repository).sessions().insert(
                before.id,
                ended(before, now),
            )
            &&& describes(response, ended(before, now))
        }),
        !old(repository).sessions().contains_key(session_id@) ==> r is Err,
        old(repository).never_fails() ==> ({
            let held = old(repository).sessions().contains_key(session_id@);
            &&& !held ==> (r matches Err(DomainError::FileNotFound))
            &&& held ==> r is Ok
        }),
{
    let mut session = match find_session(repository, session_id) {
        Ok(session) => session,
        Err(e) => {
            return Err(e);
        },
    };
    let _ = session.end_at(now);
    match repository.save(&session) {
        Ok(_) => Ok(session_response(&session)),
        Err(e) => Err(e),
    }
}

/// Use case: open a streaming session.
pub struct CreateSessionUseCase<R: SessionRepository> {
    session_repository: R,
}

impl<R: SessionRepository> CreateSessionUseCase<R> {
    /// The sessions held, by session identifier.
    pub closed spec fn sessions(self) -> Map<Seq<char>, SessionView> {
        self.session_repository.sessions()
    }

    /// Whether the repository never fails.
    pub closed spec fn reliable(self) -> bool {
        self.session_repository.never_fails()
    }

    /// The use case over a repository of sessions.
    pub fn new(session_repository: R) -> (r: Self)
        ensures
            r.sessions() == session_repository.sessions(),
            r.reliable() == session_repository.never_fails(),
    {
        CreateSessionUseCase { session_repository }
    }

    /// The repository.
    pub fn into_repository(self) -> (r: R)
        ensures
            r.sessions() == self.sessions(),
            r.never_fails() == self.reliable(),
    {
        self.session_repository
    }

    /// Opens a session now for the client and the video of the request,
    /// starts it and stores it: the session is active, has a fresh
    /// identifier and has asked for nothing yet. Where the store fails
    /// nothing is stored.
    pub fn execute(&mut self, request: CreateSessionRequest) -> (r: DomainResult<SessionResponse>)
        ensures
            final(self).reliable() == old(self).reliable(),
            old(self).reliable() ==> r is Ok,
            r is Err ==> final(self).sessions() == old(self).sessions(),
            r matches Ok(response) ==> exists|at: Timestamp|
                {
                    let session = #[trigger] opened_session(
                        request.video_id@,
                        request.user_agent@,
                        request.ip_address@,
                        at,
                    );
                    &&& final(self).sessions() == old(self).sessions().insert(session.id, session)
                    &&& describes(response, session)
                },
    {
        let now = Timestamp::now();
        let r = open_session_at(&mut self.session_repository, request, now);
        proof {
            if r is Ok {
                let session = opened_session(
                    request.video_id@,
                    request.user_agent@,
                    request.ip_address@,
                    now,
                );
                assert(self.sessions() == old(self).sessions().insert(session.id, session));
            }
        }
        r
    }
}

/// Use case: pause, resume and end streaming sessions.
pub struct ManageSessionUseCase<R: SessionRepository> {
    session_repository: R,
}

impl<R: SessionRepository> ManageSessionUseCase<R> {
    /// The sessions held, by session identifier.
    pub closed spec fn sessions(self) -> Map<Seq<char>, SessionView> {
        self.session_repository.sessions()
    }

    /// Whether the repository never fails.
    pub closed spec fn reliable(self) -> bool {
        self.session_repository.never_fails()
    }

    /// The use case over a repository of sessions.
    pub fn new(session_repository: R) -> (r: Self)
        ensures
            r.sessions() == session_repository.sessions(),
            r.reliable() == session_repository.never_fails(),
    {
        ManageSessionUseCase { session_repository }
    }

    /// The repository.
    pub fn into_repository(self) -> (r: R)
        ensures
            r.sessions() == self.sessions(),
            r.never_fails() == self.reliable(),
    {
        self.session_repository
    }

    /// Pauses the session under `session_id`: it must be held, active,
    /// and not have used up its count of pauses; otherwise nothing
    /// changes and the call fails.
    pub fn pause_session(&mut self, session_id: &str) -> (r: DomainResult<SessionResponse>)
        ensures
            final(self).reliable() == old(self).reliable(),
            r is Err ==> final(self).sessions() == old(self).sessions(),
            r matches Ok(response) ==> ({
                let before = old(self).sessions()[session_id@];
                &&& old(self).sessions().contains_key(session_id@)
                &&& before.state is Active
                &&& final(self).sessions() == old(self).sessions().insert(
                    before.id,
                    paused(before),
                )
                &&& describes(response, paused(before))
            }),
            !old(self).sessions().contains_key(session_id@) ==> r is Err,
            old(self).reliable() ==> ({
                let held = old(self).sessions().contains_key(session_id@);
                let before = old(self).sessions()[session_id@];
                &&& !held ==> (r matches Err(DomainError::FileNotFound))
                &&& held && !(before.state is Active) ==> (r matches Err(
                    DomainError::InvalidState(msg),
                ) && msg@ == "Session not active"@)
                &&& held && before.state is Active && before.metrics.pause_count < u32::MAX
                    ==> r is Ok
            }),
    {
        pause_stored(&mut self.session_repository, session_id)
    }

    /// Resumes the session under `session_id`: it must be held, paused,
    /// and not have used up its count of paused seconds; otherwise
    /// nothing changes and the call fails.
    pub fn resume_session(&mut self, session_id: &str) -> (r: DomainResult<SessionResponse>)
        ensures
            final(self).reliable() == old(self).reliable(),
            r is Err ==> final(self).sessions() == old(self).sessions(),
            r matches Ok(response) ==> ({
                let before = old(self).sessions()[session_id@];
                &&& old(self).sessions().contains_key(session_id@)
                &&& before.state is Paused
                &&& final(self).sessions() == old(self).sessions().insert(
                    before.id,
                    resumed(before),
                )
                &&& describes(response, resumed(before))
            }),
            !old(self).sessions().contains_key(session_id@) ==> r is Err,
            old(self).reliable() ==> ({
                let held = old(self).sessions().contains_key(session_id@);
                let before = old(self).sessions()[session_id@];
                &&& !held ==> (r matches Err(DomainError::FileNotFound))
                &&& held && !(before.state is Paused) ==> (r matches Err(
                    DomainError::InvalidState(msg),
                ) && msg@ == "Session not paused"@)
                &&& held && before.state is Paused && before.metrics.total_pause_seconds
                    < u64::MAX ==> r is Ok
            }),
    {
        resume_stored(&mut self.session_repository, session_id)
    }

    /// Ends the session under `session_id` now, whatever its state: it
    /// must be held; otherwise nothing changes and the call fails.
    pub fn end_session(&mut self, session_id: &str) -> (r: DomainResult<SessionResponse>)
        ensures
            final(self).reliable() == old(self).reliable(),
            r is Err ==> final(self).sessions() == old(self).sessions(),
            r matches Ok(response) ==> old(self).sessions().contains_key(session_id@) && exists|
                at: Timestamp,
            |
                {
                    let after = #[trigger] ended(old(self).sessions()[session_id@], at);
                    &&& final(self).sessions() == old(self).sessions().insert(after.id, after)
                    &&& describes(response, after)
                },
            !old(self).sessions().contains_key(session_id@) ==> r is Err,
            old(self).reliable() ==> ({
                let held = old(self).sessions().contains_key(session_id@);
                &&& !held ==> (r matches Err(DomainError::FileNotFound))
                &&& held ==> r is Ok
            }),
    {
        let now = Timestamp::now();
        let r = end_stored_at(&mut self.session_repository, session_id, now);
        proof {
            if r is Ok {
                let after = ended(old(self).sessions()[session_id@], now);
                assert(self.sessions() == old(self).sessions().insert(after.id, after));
            }
        }
        r
    }
}

} // verus!
