//! Streaming sessions: their life cycle and their metrics.
use vstd::prelude::*;
use vstd::std_specs::cmp::PartialEqSpecImpl;
use vstd::string::StringExecFns;
use crate::domain::common::{ByteRange, DomainError, DomainResult};
use crate::domain::video::{RangeRequest, VideoChunk, VideoId};
use crate::shared::clock::Timestamp;
use crate::shared::text::{append_decimal, decimal, texts};

verus! {

/// Entity: the identifier of a streaming session.
#[derive(Debug, Eq, Hash)]
pub struct SessionId(String);

impl PartialEq for SessionId {
    fn eq(&self, other: &Self) -> (r: bool) {
        self.0 == other.0
    }
}

impl PartialEqSpecImpl for SessionId {
    open spec fn obeys_eq_spec() -> bool {
        true
    }

    open spec fn eq_spec(&self, other: &Self) -> bool {
        self@ == other@
    }
}

impl View for SessionId {
    type V = Seq<char>;

    closed spec fn view(&self) -> Seq<char> {
        self.0@
    }
}

impl Clone for SessionId {
    fn clone(&self) -> (r: Self)
        ensures
            r@ == self@,
    {
        SessionId(self.0.clone())
    }
}

impl SessionId {
    /// Wraps an identifier; every text is accepted.
    pub fn new(id: String) -> (r: Self)
        ensures
            r@ == id@,
    {
        SessionId(id)
    }

    /// The identifier as text.
    pub fn as_str(&self) -> (r: &str)
        ensures
            r@ == self@,
    {
        self.0.as_str()
    }
}

/// The mathematical content of a client description.
pub struct ClientView {
    pub user_agent: Seq<char>,
    pub ip_address: Seq<char>,
    pub supported_formats: Seq<Seq<char>>,
}

/// Value object: what is known of a client.
#[derive(Debug)]
pub struct ClientInfo {
    pub user_agent: String,
    pub ip_address: String,
    pub supported_formats: Vec<String>,
}

impl View for ClientInfo {
    type V = ClientView;

    open spec fn view(&self) -> ClientView {
        ClientView {
            user_agent: self.user_agent@,
            ip_address: self.ip_address@,
            supported_formats: texts(self.supported_formats@),
        }
    }
}

impl Clone for ClientInfo {
    fn clone(&self) -> (r: Self)
        ensures
            r@ == self@,
    {
        let supported_formats = self.supported_formats.clone();
        ClientInfo {
            user_agent: self.user_agent.clone(),
            ip_address: self.ip_address.clone(),
            supported_formats,
        }
    }
}

impl ClientInfo {
    /// A client that takes the two formats every client is taken to
    /// support: WebM and MP4.
    pub fn new(user_agent: String, ip_address: String) -> (r: Self)
        ensures
            r@ == (ClientView {
                user_agent: user_agent@,
                ip_address: ip_address@,
                supported_formats: seq!["video/webm"@, "video/mp4"@],
            }),
    {
        let mut supported_formats: Vec<String> = Vec::new();
        supported_formats.push(String::from_str("video/webm"));
        supported_formats.push(String::from_str("video/mp4"));
        assert(texts(supported_formats@) =~= seq!["video/webm"@, "video/mp4"@]);
        ClientInfo { user_agent, ip_address, supported_formats }
    }
}

/// Value object: where a session stands in its life cycle.
#[derive(Debug, Clone, Copy, PartialEq, Eq, Structural)]
pub enum SessionState {
    Created,
    Active,
    Paused,
    Ended,
}

impl SessionState {
    /// The name of the state.
    pub open spec fn name(self) -> Seq<char> {
        match self {
            SessionState::Created => "Created"@,
            SessionState::Active => "Active"@,
            SessionState::Paused => "Paused"@,
            SessionState::Ended => "Ended"@,
        }
    }

    /// The name of the state as text.
    pub fn label(&self) -> (r: String)
        ensures
            r@ == self.name(),
    {
        match self {
            SessionState::Created => String::from_str("Created"),
            SessionState::Active => String::from_str("Active"),
            SessionState::Paused => String::from_str("Paused"),
            SessionState::Ended => String::from_str("Ended"),
        }
    }
}

/// Value object: what a session has asked for so far. The time spent
/// paused is in whole seconds.
#[derive(Debug, Clone, Copy, PartialEq, Eq, Structural)]
pub struct SessionMetrics {
    pub start_time: Timestamp,
    pub end_time: Option<Timestamp>,
    pub bytes_requested: u64,
    pub chunks_requested: u64,
    pub pause_count: u32,
    pub total_pause_seconds: u64,
}

impl SessionMetrics {
    /// Fresh metrics for a session that starts at `now`.
    pub fn starting_at(now: Timestamp) -> (r: Self)
        ensures
            r == (SessionMetrics {
                start_time: now,
                end_time: None,
                bytes_requested: 0,
                chunks_requested: 0,
                pause_count: 0,
                total_pause_seconds: 0,
            }),
    {
        SessionMetrics {
            start_time: now,
            end_time: None,
            bytes_requested: 0,
            chunks_requested: 0,
            pause_count: 0,
            total_pause_seconds: 0,
        }
    }

    /// Fresh metrics for a session that starts now.
    pub fn new() -> (r: Self)
        ensures
            r == (SessionMetrics {
                start_time: r.start_time,
                end_time: None,
                bytes_requested: 0,
                chunks_requested: 0,
                pause_count: 0,
                total_pause_seconds: 0,
            }),
    {
        SessionMetrics::starting_at(Timestamp::now())
    }

    /// Counts one more pause.
    pub fn update_pause_time(&mut self)
        requires
            old(self).pause_count < u32::MAX,
        ensures
            *final(self) == (SessionMetrics {
                pause_count: (old(self).pause_count + 1) as u32,
                ..*old(self)
            }),
    {
        self.pause_count = self.pause_count + 1;
    }

    /// Counts the pause that ends as one second of pause.
    pub fn update_resume_time(&mut self)
        requires
            old(self).total_pause_seconds < u64::MAX,
        ensures
            *final(self) == (SessionMetrics {
                total_pause_seconds: (old(self).total_pause_seconds + 1) as u64,
                ..*old(self)
            }),
    {
        self.total_pause_seconds = self.total_pause_seconds + 1;
    }

    /// The nanoseconds from the session's start to its end, where it
    /// has ended and did not end before it started.
    pub open spec fn elapsed(self) -> Option<nat> {
        match self.end_time {
            Some(end) => if end.total_nanos() >= self.start_time.total_nanos() {
                Some((end.total_nanos() - self.start_time.total_nanos()) as nat)
            } else {
                None
            },
            None => None,
        }
    }

    /// The nanoseconds from the session's start to its end; `None`
    /// while the session has not ended, or if it ended before it started.
    pub fn duration(&self) -> (r: Option<u128>)
        ensures
            self.elapsed() matches Some(span) ==> (r matches Some(nanos) && nanos == span),
            self.elapsed() is None ==> r is None,
            r matches Some(span) ==> crate::shared::clock::whole_seconds(span as nat) <= u64::MAX,
    {
        match self.end_time {
            Some(end) => end.elapsed_since(&self.start_time),
            None => None,
        }
    }
}

/// The mathematical content of a session.
pub struct SessionView {
    pub id: Seq<char>,
    pub video_id: Seq<char>,
    pub client_info: ClientView,
    pub state: SessionState,
    pub metrics: SessionMetrics,
}

/// Aggregate root: one client's streaming of one video.
#[derive(Debug)]
pub struct StreamingSession {
    pub id: SessionId,
    pub video_id: VideoId,
    pub client_info: ClientInfo,
    pub state: SessionState,
    pub metrics: SessionMetrics,
}

impl View for StreamingSession {
    type V = SessionView;

    open spec fn view(&self) -> SessionView {
        SessionView {
            id: self.id@,
            video_id: self.video_id@,
            client_info: self.client_info@,
            state: self.state,
            metrics: self.metrics,
        }
    }
}

impl Clone for StreamingSession {
    fn clone(&self) -> (r: Self)
        ensures
            r@ == self@,
    {
        StreamingSession {
            id: self.id.clone(),
            video_id: self.video_id.clone(),
            client_info: self.client_info.clone(),
            state: self.state,
            metrics: self.metrics,
        }
    }
}

impl StreamingSession {
    /// A session created at the time `now`, not yet started.
    pub fn new_at(id: SessionId, video_id: VideoId, client_info: ClientInfo, now: Timestamp) -> (r:
        Self)
        ensures
            r == (StreamingSession {
                id,
                video_id,
                client_info,
                state: SessionState::Created,
                metrics: SessionMetrics {
                    start_time: now,
                    end_time: None,
                    bytes_requested: 0,
                    chunks_requested: 0,
                    pause_count: 0,
                    total_pause_seconds: 0,
                },
            }),
    {
        StreamingSession {
            id,
            video_id,
            client_info,
            state: SessionState::Created,
            metrics: SessionMetrics::starting_at(now),
        }
    }

    /// A session created now, not yet started.
    pub fn new(id: SessionId, video_id: VideoId, client_info: ClientInfo) -> (r: Self)
        ensures
            r == (StreamingSession {
                id,
                video_id,
                client_info,
                state: SessionState::Created,
                metrics: SessionMetrics {
                    start_time: r.metrics.start_time,
                    end_time: None,
                    bytes_requested: 0,
                    chunks_requested: 0,
                    pause_count: 0,
                    total_pause_seconds: 0,
                },
            }),
    {
        StreamingSession::new_at(id, video_id, client_info, Timestamp::now())
    }

    /// Starts a created session at the time `now`. Any other session is
    /// left as it is and the call fails.
    pub fn start_at(&mut self, now: Timestamp) -> (r: DomainResult<()>)
        ensures
            old(self).state is Created ==> r is Ok && *final(self) == (StreamingSession {
                state: SessionState::Active,
                metrics: SessionMetrics { start_time: now, ..old(self).metrics },
                ..*old(self)
            }),
            !(old(self).state is Created) ==> (r matches Err(DomainError::InvalidState(msg))
                && msg@ == "Session already started"@) && *final(self) == *old(self),
    {
        match self.state {
            SessionState::Created => {
                self.state = SessionState::Active;
                self.metrics.start_time = now;
                Ok(())
            },
            _ => Err(DomainError::InvalidState(String::from_str("Session already started"))),
        }
    }

    /// Starts a created session now. Any other session is left as it is
    /// and the call fails.
    pub fn start(&mut self) -> (r: DomainResult<()>)
        ensures
            old(self).state is Created ==> r is Ok && *final(self) == (StreamingSession {
                state: SessionState::Active,
                metrics: SessionMetrics {
                    start_time: final(self).metrics.start_time,
                    ..old(self).metrics
                },
                ..*old(self)
            }),
            !(old(self).state is Created) ==> (r matches Err(DomainError::InvalidState(msg))
                && msg@ == "Session already started"@) && *final(self) == *old(self),
    {
        match self.state {
            SessionState::Created => self.start_at(Timestamp::now()),
            _ => Err(DomainError::InvalidState(String::from_str("Session already started"))),
        }
    }

    /// Pauses an active session and counts the pause. Any other session
    /// is left as it is and the call fails.
    pub fn pause(&mut self) -> (r: DomainResult<()>)
        requires
            old(self).state is Active ==> old(self).metrics.pause_count < u32::MAX,
        ensures
            old(self).state is Active ==> r is Ok && *final(self) == (StreamingSession {
                state: SessionState::Paused,
                metrics: SessionMetrics {
                    pause_count: (old(self).metrics.pause_count + 1) as u32,
                    ..old(self).metrics
                },
                ..*old(self)
            }),
            !(old(self).state is Active) ==> (r matches Err(DomainError::InvalidState(msg)) && msg@
                == "Session not active"@) && *final(self) == *old(self),
    {
        match self.state {
            SessionState::Active => {
                self.state = SessionState::Paused;
                self.metrics.update_pause_time();
                Ok(())
            },
            _ => Err(DomainError::InvalidState(String::from_str("Session not active"))),
        }
    }

    /// Resumes a paused session and counts one second of pause. Any
    /// other session is left as it is and the call fails.
    pub fn resume(&mut self) -> (r: DomainResult<()>)
        requires
            old(self).state is Paused ==> old(self).metrics.total_pause_seconds < u64::MAX,
        ensures
            old(self).state is Paused ==> r is Ok && *final(self) == (StreamingSession {
                state: SessionState::Active,
                metrics: SessionMetrics {
                    total_pause_seconds: (old(self).metrics.total_pause_seconds + 1) as u64,
                    ..old(self).metrics
                },
                ..*old(self)
            }),
            !(old(self).state is Paused) ==> (r matches Err(DomainError::InvalidState(msg)) && msg@
                == "Session not paused"@) && *final(self) == *old(self),
    {
        match self.state {
            SessionState::Paused => {
                self.state = SessionState::Active;
                self.metrics.update_resume_time();
                Ok(())
            },
            _ => Err(DomainError::InvalidState(String::from_str("Session not paused"))),
        }
    }

    /// Ends the session at the time `now`, whatever its state. This
    /// never fails.
    pub fn end_at(&mut self, now: Timestamp) -> (r: DomainResult<()>)
        ensures
            r is Ok,
            *final(self) == (StreamingSession {
                state: SessionState::Ended,
                metrics: SessionMetrics { end_time: Some(now), ..old(self).metrics },
                ..*old(self)
            }),
    {
        self.state = SessionState::Ended;
        self.metrics.end_time = Some(now);
        Ok(())
    }

    /// Ends the session now, whatever its state. This never fails.
    pub fn end(&mut self) -> (r: DomainResult<()>)
        ensures
            r is Ok,
            final(self).metrics.end_time is Some,
            *final(self) == (StreamingSession {
                state: SessionState::Ended,
                metrics: SessionMetrics {
                    end_time: final(self).metrics.end_time,
                    ..old(self).metrics
                },
                ..*old(self)
            }),
    {
        self.end_at(Timestamp::now())
    }

    /// Counts a request for the bytes of `range` and answers it with an
    /// empty chunk for that range. Only an active session takes
    /// requests; any other is left as it is and the call fails.
    pub fn request_chunk(&mut self, range: &ByteRange) -> (r: DomainResult<VideoChunk>)
        requires
            range.start <= range.end,
            range.end - range.start < u64::MAX,
            old(self).state is Active ==> old(self).metrics.chunks_requested < u64::MAX && old(self).metrics.bytes_requested + (range.end - range.start + 1) <= u64::MAX,
        ensures
            old(self).state is Active ==> {
                &&& r matches Ok(chunk)
                &&& r->Ok_0.data@ == Seq::<u8>::empty()
                &&& r->Ok_0.range == (RangeRequest {
                    start: range.start,
                    end: range.end,
                    total_size: range.total_size,
                })
                &&& *final(self) == (StreamingSession {
                    metrics: SessionMetrics {
                        bytes_requested: (old(self).metrics.bytes_requested + (range.end
                            - range.start + 1)) as u64,
                        chunks_requested: (old(self).metrics.chunks_requested + 1) as u64,
                        ..old(self).metrics
                    },
                    ..*old(self)
                })
            },
            !(old(self).state is Active) ==> (r matches Err(DomainError::InvalidState(msg)) && msg@
                == "Session not active"@) && *final(self) == *old(self),
    {
        if self.state != SessionState::Active {
            return Err(DomainError::InvalidState(String::from_str("Session not active")));
        }
        self.metrics.bytes_requested = self.metrics.bytes_requested + range.size();
        self.metrics.chunks_requested = self.metrics.chunks_requested + 1;
        Ok(VideoChunk::new(self.video_id.clone(), *range, Vec::new()))
    }
}

/// The text of the session identifier issued at a given time:
/// `session_` and the milliseconds since the epoch.
pub open spec fn session_id_text(at: Timestamp) -> Seq<char> {
    "session_"@ + decimal(at.total_millis())
}

/// Domain service: the store of streaming sessions, addressed by
/// session identifier. A session handed out is a copy.
pub trait SessionRepository {
    /// The sessions held, by session identifier.
    spec fn sessions(&self) -> Map<Seq<char>, SessionView>;

    /// Whether every operation of this store succeeds.
    spec fn never_fails(&self) -> bool;

    /// A copy of the session held under `id`, or `None` where there is
    /// none.
    fn find_by_id(&self, id: &SessionId) -> (r: DomainResult<Option<StreamingSession>>)
        ensures
            r matches Ok(Some(session)) ==> self.sessions().contains_key(id@) && session@
                == self.sessions()[id@],
            r matches Ok(None) ==> !self.sessions().contains_key(id@),
            self.never_fails() ==> r is Ok,
    ;

    /// Stores a copy of `session` under its identifier, replacing a
    /// session held under it. A store that fails holds what it held
    /// before.
    fn save(&mut self, session: &StreamingSession) -> (r: DomainResult<()>)
        ensures
            r is Ok ==> final(self).sessions() == old(self).sessions().insert(
                session@.id,
                session@,
            ),
            r is Err ==> final(self).sessions() == old(self).sessions(),
            old(self).never_fails() ==> r is Ok,
            final(self).never_fails() == old(self).never_fails(),
    ;

    /// Removes the session held under `id`, if there is one. A store
    /// that fails holds what it held before.
    fn delete(&mut self, id: &SessionId) -> (r: DomainResult<()>)
        ensures
            r is Ok ==> final(self).sessions() == old(self).sessions().remove(id@),
            r is Err ==> final(self).sessions() == old(self).sessions(),
            old(self).never_fails() ==> r is Ok,
            final(self).never_fails() == old(self).never_fails(),
    ;

    /// Copies of the sessions that are active: each such session once,
    /// and no other.
    fn find_active_sessions(&self) -> (r: DomainResult<Vec<StreamingSession>>)
        ensures
            r matches Ok(found) ==> {
                &&& forall|i: int|
                    0 <= i < found@.len() ==> {
                        &&& (#[trigger] found@[i])@.state is Active
                        &&& self.sessions().contains_key(found@[i]@.id)
                        &&& self.sessions()[found@[i]@.id] == found@[i]@
                    }
                &&& forall|i: int, j: int|
                    0 <= i < j < found@.len() ==> (#[trigger] found@[i])@.id != (
                    #[trigger] found@[j])@.id
                &&& forall|id: Seq<char>|
                    #![trigger self.sessions().contains_key(id)]
                    self.sessions().contains_key(id) && self.sessions()[id].state is Active
                        ==> exists|i: int| 0 <= i < found@.len() && (#[trigger] found@[i])@.id == id
            },
            self.never_fails() ==> r is Ok,
    ;
}

/// Domain service: creates sessions and checks them.
pub struct SessionManager;

impl SessionManager {
    /// The session created at the time `now` for a client and a video:
    /// its identifier is issued for that time.
    pub fn create_session_at(video_id: VideoId, client_info: ClientInfo, now: Timestamp) -> (r:
        StreamingSession)
        ensures
            r@ == (SessionView {
                id: session_id_text(now),
                video_id: video_id@,
                client_info: client_info@,
                state: SessionState::Created,
                metrics: SessionMetrics {
                    start_time: now,
                    end_time: None,
                    bytes_requested: 0,
                    chunks_requested: 0,
                    pause_count: 0,
                    total_pause_seconds: 0,
                },
            }),
    {
        let mut id = String::from_str("session_");
        append_decimal(&mut id, now.as_millis());
        StreamingSession::new_at(SessionId::new(id), video_id, client_info, now)
    }

    /// A session created now for a client and a video, with a fresh
    /// identifier.
    pub fn create_session(video_id: VideoId, client_info: ClientInfo) -> (r: StreamingSession)
        ensures
            exists|at: Timestamp| r@.id == session_id_text(at),
            r@.video_id == video_id@,
            r@.client_info == client_info@,
            r.state is Created,
            r.metrics == (SessionMetrics {
                start_time: r.metrics.start_time,
                end_time: None,
                bytes_requested: 0,
                chunks_requested: 0,
                pause_count: 0,
                total_pause_seconds: 0,
            }),
    {
        SessionManager::create_session_at(video_id, client_info, Timestamp::now())
    }

    /// Fails for a session that has ended, and for no other.
    pub fn validate_session(session: &StreamingSession) -> (r: DomainResult<()>)
        ensures
            session.state is Ended ==> (r matches Err(DomainError::InvalidState(msg)) && msg@
                == "Session has ended"@),
            !(session.state is Ended) ==> r is Ok,
    {
        if session.state == SessionState::Ended {
            return Err(DomainError::InvalidState(String::from_str("Session has ended")));
        }
        Ok(())
    }
}

} // verus!
