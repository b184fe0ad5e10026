use video_streaming_api::application::dto::{
    range_header_value, CreateSessionRequest, CreateVideoRequest, StreamVideoRequest,
    VideoMetadataResponse,
};
use video_streaming_api::application::services::{
    choose_image_spec, creation_response, status_response, SessionManagementAppService,
    VideoCreationAppService, VideoStreamingAppService,
};
use video_streaming_api::application::use_cases::{
    open_session_at, session_response, stream_response, CreateSessionUseCase,
    ManageSessionUseCase, StreamVideoUseCase,
};
use video_streaming_api::domain::common::{ByteRange, ContentType, DomainError, FilePath};
use video_streaming_api::domain::streaming::{
    ClientInfo, SessionId, SessionRepository, SessionState, StreamingSession,
};
use video_streaming_api::domain::video::{
    Video, VideoChunk, VideoId, VideoMetadata, VideoRepository, VideoStreamingService,
};
use video_streaming_api::domain::video_creation::{
    ImageSpec, VideoCreationJob, VideoCreationJobId, VideoCreationRequest, VideoCreationStatus,
};
use video_streaming_api::infrastructure::ffmpeg::{
    CreationAction, CreationEvent, CreationPhase, EncoderOutcome,
};
use video_streaming_api::infrastructure::repositories::{
    InMemorySessionRepository, InMemoryVideoRepository,
};
use video_streaming_api::infrastructure::services::FileVideoStreamingService;
use video_streaming_api::shared::clock::Timestamp;
use video_streaming_api::shared::config::Config;

struct PatternReader;

impl VideoStreamingService for PatternReader {
    fn read_chunk(&self, video: &Video, range: &ByteRange) -> Result<VideoChunk, DomainError> {
        let data: Vec<u8> = (range.start..=range.end).map(|i| (i % 251) as u8).collect();
        Ok(FileVideoStreamingService::new().frame_chunk(video, range, data))
    }

    fn get_metadata(&self, video: &Video) -> Result<VideoMetadata, DomainError> {
        FileVideoStreamingService::new().get_metadata(video)
    }
}

struct BrokenReader;

impl VideoStreamingService for BrokenReader {
    fn read_chunk(&self, _video: &Video, _range: &ByteRange) -> Result<VideoChunk, DomainError> {
        Err(DomainError::IoError("unreadable".to_string()))
    }

    fn get_metadata(&self, _video: &Video) -> Result<VideoMetadata, DomainError> {
        Err(DomainError::IoError("unreadable".to_string()))
    }
}

fn video(id: &str, size: u64) -> Video {
    Video::with_metadata(
        VideoId::new(id.to_string()),
        FilePath::new("clip.mp4".to_string()),
        VideoMetadata::new(size, ContentType::new("video/mp4".to_string()).unwrap()),
    )
}

fn videos() -> InMemoryVideoRepository {
    let mut repo = InMemoryVideoRepository::new();
    repo.save(&video("v1", 1000)).unwrap();
    repo.save(&video("empty", 0)).unwrap();
    repo
}

fn stream_request(id: &str, header: Option<&str>) -> StreamVideoRequest {
    StreamVideoRequest { video_id: id.to_string(), range_header: header.map(|h| h.to_string()) }
}

#[test]
fn stream_use_case_serves_the_range_asked_for() {
    let use_case = StreamVideoUseCase::new(videos(), PatternReader);
    let r = use_case.execute(stream_request("v1", Some("bytes=10-19"))).unwrap();
    assert_eq!(r.video_id, "v1");
    assert_eq!(r.content_type, "video/mp4");
    assert_eq!(r.content_range, "bytes 10-19/1000");
    assert_eq!(r.data, vec![10, 11, 12, 13, 14, 15, 16, 17, 18, 19]);
}

#[test]
fn stream_use_case_serves_the_whole_file_without_a_header() {
    let use_case = StreamVideoUseCase::new(videos(), PatternReader);
    let r = use_case.execute(stream_request("v1", None)).unwrap();
    assert_eq!(r.content_range, "bytes 0-999/1000");
    assert_eq!(r.data.len(), 1000);
}

#[test]
fn stream_use_case_fails_for_unknown_videos_and_bad_ranges() {
    let use_case = StreamVideoUseCase::new(videos(), PatternReader);
    assert!(matches!(
        use_case.execute(stream_request("nope", None)),
        Err(DomainError::FileNotFound)
    ));
    assert!(matches!(
        use_case.execute(stream_request("v1", Some("bytes=20-10"))),
        Err(DomainError::InvalidRange)
    ));
    assert!(matches!(
        use_case.execute(stream_request("v1", Some("bytes=5000-"))),
        Err(DomainError::InvalidRange)
    ));
    assert!(matches!(
        use_case.execute(stream_request("empty", None)),
        Err(DomainError::InvalidRange)
    ));
}

#[test]
fn stream_use_case_hands_on_the_failure_of_the_reader() {
    let use_case = StreamVideoUseCase::new(videos(), BrokenReader);
    assert!(matches!(
        use_case.execute(stream_request("v1", None)),
        Err(DomainError::IoError(m)) if m == "unreadable"
    ));
}

#[test]
fn streaming_service_serves_like_the_use_case() {
    let service = VideoStreamingAppService::new(videos(), PatternReader);
    let r = service.stream_video(stream_request("v1", Some("bytes=0-3"))).unwrap();
    assert_eq!(r.content_range, "bytes 0-3/1000");
    assert_eq!(r.data, vec![0, 1, 2, 3]);
    assert!(matches!(
        service.stream_video(stream_request("missing", None)),
        Err(DomainError::FileNotFound)
    ));
}

#[test]
fn stream_response_frames_a_chunk() {
    let v = video("v1", 100);
    let range = ByteRange { start: 1, end: 3, total_size: 100 };
    let chunk = VideoChunk::new(VideoId::new("v1".to_string()), range, vec![7, 8, 9]);
    let r = stream_response(&VideoId::new("v1".to_string()), &v, &range, chunk);
    assert_eq!(r.video_id, "v1");
    assert_eq!(r.content_type, "video/mp4");
    assert_eq!(r.content_range, "bytes 1-3/100");
    assert_eq!(r.data, vec![7, 8, 9]);
}

#[test]
fn file_streaming_service_cuts_chunks_to_the_range() {
    let service = FileVideoStreamingService::new();
    let v = video("v1", 100);
    let range = ByteRange { start: 10, end: 12, total_size: 100 };
    assert_eq!(service.chunk_size(&range), Some(3));
    assert_eq!(service.frame_chunk(&v, &range, vec![1, 2, 3, 4, 5]).data, vec![1, 2, 3]);
    assert_eq!(service.frame_chunk(&v, &range, vec![1, 2]).data, vec![1, 2]);
    assert_eq!(service.frame_chunk(&v, &range, vec![1, 2, 3]).data, vec![1, 2, 3]);
    let m = service.get_metadata(&v).unwrap();
    assert_eq!(m.total_size, 100);
    assert_eq!(m.content_type.as_str(), "video/mp4");
}

#[test]
fn metadata_response_leaves_the_identifier_empty() {
    let m = VideoMetadata::new(77, ContentType::new("video/webm".to_string()).unwrap());
    let r = VideoMetadataResponse::from(m);
    assert_eq!(r.video_id, "");
    assert_eq!(r.total_size, 77);
    assert_eq!(r.content_type, "video/webm");
    assert_eq!(r.duration_millis, None);
    assert_eq!(r.bitrate, None);
}

#[test]
fn range_header_value_of_a_byte_range() {
    assert_eq!(
        range_header_value(ByteRange { start: 0, end: 1023, total_size: 2048 }),
        "bytes 0-1023/2048"
    );
}

fn session_request(video: &str) -> CreateSessionRequest {
    CreateSessionRequest {
        video_id: video.to_string(),
        user_agent: "agent".to_string(),
        ip_address: "10.1.1.1".to_string(),
    }
}

#[test]
fn opening_a_session_stores_it_active() {
    let mut repo = InMemorySessionRepository::new();
    let now = Timestamp::new(1_700_000_000, 5_000_000).unwrap();
    let r = open_session_at(&mut repo, session_request("video_7"), now).unwrap();
    assert_eq!(r.session_id, "session_1700000000005");
    assert_eq!(r.video_id, "video_7");
    assert_eq!(r.state, "Active");
    assert_eq!(r.metrics.bytes_requested, 0);
    assert_eq!(r.metrics.chunks_requested, 0);
    assert_eq!(r.metrics.pause_count, 0);
    assert_eq!(r.metrics.duration_seconds, None);
    let stored = repo.find_by_id(&SessionId::new(r.session_id.clone())).unwrap().unwrap();
    assert_eq!(stored.state, SessionState::Active);
    assert_eq!(stored.client_info.ip_address, "10.1.1.1");
    assert_eq!(stored.metrics.start_time, now);
}

#[test]
fn create_session_use_case_opens_a_session() {
    let mut use_case = CreateSessionUseCase::new(InMemorySessionRepository::new());
    let r = use_case.execute(session_request("video_7")).unwrap();
    assert!(r.session_id.starts_with("session_"));
    assert_eq!(r.state, "Active");
    let repo = use_case.into_repository();
    assert_eq!(repo.find_active_sessions().unwrap().len(), 1);
}

fn stored_sessions() -> InMemorySessionRepository {
    let mut repo = InMemorySessionRepository::new();
    let mut active = StreamingSession::new_at(
        SessionId::new("active".to_string()),
        VideoId::new("v".to_string()),
        ClientInfo::new("a".to_string(), "b".to_string()),
        Timestamp::new(100, 0).unwrap(),
    );
    active.start_at(Timestamp::new(100, 0).unwrap()).unwrap();
    repo.save(&active).unwrap();
    let created = StreamingSession::new_at(
        SessionId::new("created".to_string()),
        VideoId::new("v".to_string()),
        ClientInfo::new("a".to_string(), "b".to_string()),
        Timestamp::new(100, 0).unwrap(),
    );
    repo.save(&created).unwrap();
    repo
}

#[test]
fn manage_session_use_case_pauses_resumes_and_ends() {
    let mut use_case = ManageSessionUseCase::new(stored_sessions());
    let paused = use_case.pause_session("active").unwrap();
    assert_eq!(paused.state, "Paused");
    assert_eq!(paused.metrics.pause_count, 1);
    assert_eq!(paused.session_id, "active");
    let resumed = use_case.resume_session("active").unwrap();
    assert_eq!(resumed.state, "Active");
    assert_eq!(resumed.metrics.pause_count, 1);
    let ended = use_case.end_session("active").unwrap();
    assert_eq!(ended.state, "Ended");
    assert!(ended.metrics.duration_seconds.is_some());
    let repo = use_case.into_repository();
    let stored = repo.find_by_id(&SessionId::new("active".to_string())).unwrap().unwrap();
    assert_eq!(stored.state, SessionState::Ended);
    assert_eq!(stored.metrics.total_pause_seconds, 1);
}

#[test]
fn manage_session_use_case_fails_without_changing_anything() {
    let mut use_case = ManageSessionUseCase::new(stored_sessions());
    assert!(matches!(use_case.pause_session("nope"), Err(DomainError::FileNotFound)));
    assert!(matches!(use_case.resume_session("nope"), Err(DomainError::FileNotFound)));
    assert!(matches!(use_case.end_session("nope"), Err(DomainError::FileNotFound)));
    assert!(matches!(
        use_case.pause_session("created"),
        Err(DomainError::InvalidState(m)) if m == "Session not active"
    ));
    assert!(matches!(
        use_case.resume_session("active"),
        Err(DomainError::InvalidState(m)) if m == "Session not paused"
    ));
    let repo = use_case.into_repository();
    let created = repo.find_by_id(&SessionId::new("created".to_string())).unwrap().unwrap();
    assert_eq!(created.state, SessionState::Created);
    let active = repo.find_by_id(&SessionId::new("active".to_string())).unwrap().unwrap();
    assert_eq!(active.state, SessionState::Active);
    assert_eq!(active.metrics.pause_count, 0);
}

#[test]
fn pausing_with_an_exhausted_counter_is_refused() {
    let mut repo = InMemorySessionRepository::new();
    let mut s = StreamingSession::new_at(
        SessionId::new("s".to_string()),
        VideoId::new("v".to_string()),
        ClientInfo::new("a".to_string(), "b".to_string()),
        Timestamp::new(100, 0).unwrap(),
    );
    s.start().unwrap();
    s.metrics.pause_count = u32::MAX;
    repo.save(&s).unwrap();
    let mut use_case = ManageSessionUseCase::new(repo);
    assert!(matches!(
        use_case.pause_session("s"),
        Err(DomainError::InvalidState(m)) if m == "Pause counter exhausted"
    ));
}

#[test]
fn session_service_answers_from_its_own_sessions() {
    let mut service = SessionManagementAppService::new();
    assert!(matches!(service.pause_session("session_123"), Err(DomainError::FileNotFound)));
    let opened = service.create_session(session_request("video_5")).unwrap();
    assert_eq!(opened.video_id, "video_5");
    assert_eq!(opened.state, "Active");
    let id = opened.session_id.clone();
    let paused = service.pause_session(&id).unwrap();
    assert_eq!((paused.state.as_str(), paused.metrics.pause_count), ("Paused", 1));
    assert_eq!(paused.video_id, "video_5");
    assert!(matches!(service.pause_session(&id), Err(DomainError::InvalidState(_))));
    let resumed = service.resume_session(&id).unwrap();
    assert_eq!(resumed.state, "Active");
    let ended = service.end_session(&id).unwrap();
    assert_eq!(ended.state, "Ended");
    assert_eq!(ended.metrics.pause_count, 1);
    assert!(ended.metrics.duration_seconds.is_some());
    assert!(matches!(service.resume_session(&id), Err(DomainError::InvalidState(_))));
}

#[test]
fn session_response_describes_the_session() {
    let mut s = StreamingSession::new_at(
        SessionId::new("s9".to_string()),
        VideoId::new("v9".to_string()),
        ClientInfo::new("a".to_string(), "b".to_string()),
        Timestamp::new(100, 0).unwrap(),
    );
    s.start_at(Timestamp::new(100, 0).unwrap()).unwrap();
    s.request_chunk(&ByteRange { start: 0, end: 99, total_size: 100 }).unwrap();
    s.end_at(Timestamp::new(145, 999_999_999).unwrap()).unwrap();
    let r = session_response(&s);
    assert_eq!(r.session_id, "s9");
    assert_eq!(r.video_id, "v9");
    assert_eq!(r.state, "Ended");
    assert_eq!(r.metrics.bytes_requested, 100);
    assert_eq!(r.metrics.chunks_requested, 1);
    assert_eq!(r.metrics.duration_seconds, Some(45));
}

fn video_request(images: &[&str]) -> CreateVideoRequest {
    CreateVideoRequest {
        image_paths: images.iter().map(|s| s.to_string()).collect(),
        output_path: "/out/video.mp4".to_string(),
        video_id: "video_42".to_string(),
        width: None,
        height: None,
        duration_per_image: None,
    }
}

fn work_dir() -> Result<String, String> {
    Ok("/work".to_string())
}

#[test]
fn image_spec_of_a_request_or_of_the_configuration() {
    let config = Config::new();
    let mut r = video_request(&["/"]);
    assert_eq!(choose_image_spec(&r, &config).unwrap(), ImageSpec::default());
    r.width = Some(640);
    r.height = Some(480);
    assert_eq!(choose_image_spec(&r, &config).unwrap(), ImageSpec::default());
    r.duration_per_image = Some(2);
    assert_eq!(
        choose_image_spec(&r, &config).unwrap(),
        ImageSpec { width: 640, height: 480, duration_seconds: 2 }
    );
    r.height = Some(0);
    assert!(matches!(choose_image_spec(&r, &config), Err(DomainError::InvalidRange)));
}

#[test]
fn five_images_at_the_default_spec_run_to_a_completed_job() {
    let mut service = VideoCreationAppService::new(Config::new());
    let request = video_request(&["/", "/", "/", "/", "/"]);
    let mut run = service.begin_video(&request, true, &work_dir()).unwrap();
    assert_eq!(run.current_phase(), CreationPhase::AwaitingFrameList);
    let job_id = run.job.id.as_str().to_string();
    let early = service.get_job_status(&job_id).unwrap();
    assert_eq!(early.status, "InProgress");
    assert_eq!(early.progress.unwrap().percentage_basis_points, 0);
    assert_eq!(early.duration_seconds, None);
    assert_eq!(early.completed_at, None);

    service
        .advance_video(&mut run, CreationEvent::FrameListWritten("/tmp/list.txt".to_string()))
        .unwrap();
    service
        .advance_video(
            &mut run,
            CreationEvent::EncoderFinished(EncoderOutcome::Exited {
                success: true,
                stderr: String::new(),
            }),
        )
        .unwrap();
    assert!(matches!(&run.pending, CreationAction::RemoveFrameList(f) if f == "/tmp/list.txt"));
    service.advance_video(&mut run, CreationEvent::FrameListRemoved).unwrap();
    service.advance_video(&mut run, CreationEvent::OutputProbed(true)).unwrap();

    let response = service.finish_video(run).unwrap();
    assert_eq!(response.job_id, job_id);
    assert_eq!(response.video_id, "video_42");
    assert_eq!(response.status, "Completed");
    assert_eq!(response.total_frames, 5);
    assert_eq!(response.estimated_duration, 5);
    assert!(response.created_at.chars().all(|c| c.is_ascii_digit()));

    let status = service.get_job_status(&job_id).unwrap();
    assert_eq!(status.job_id, job_id);
    assert_eq!(status.video_id, "video_42");
    assert_eq!(status.status, "Completed");
    let progress = status.progress.unwrap();
    assert_eq!(progress.percentage_basis_points, 10000);
    assert_eq!((progress.current_frame, progress.total_frames), (5, 5));
    assert!(status.duration_seconds.is_some());
    assert!(status.completed_at.is_some());
    assert_eq!(status.error_message, None);
}

#[test]
fn a_failed_conversion_is_reported_as_data() {
    let mut service = VideoCreationAppService::new(Config::new());
    let mut run = service.begin_video(&video_request(&["/"]), true, &work_dir()).unwrap();
    let job_id = run.job.id.as_str().to_string();
    service
        .advance_video(&mut run, CreationEvent::FrameListWritten("/tmp/list.txt".to_string()))
        .unwrap();
    service
        .advance_video(
            &mut run,
            CreationEvent::EncoderFinished(EncoderOutcome::Exited {
                success: false,
                stderr: "bad input".to_string(),
            }),
        )
        .unwrap();
    service.advance_video(&mut run, CreationEvent::FrameListRemoved).unwrap();
    service.advance_video(&mut run, CreationEvent::OutputProbed(true)).unwrap();
    let response = service.finish_video(run).unwrap();
    assert_eq!(response.status, "Failed");
    let status = service.get_job_status(&job_id).unwrap();
    assert_eq!(status.status, "Failed");
    assert_eq!(status.error_message.as_deref(), Some("IO error: FFmpeg failed: bad input"));
    assert!(status.completed_at.is_some());
}

#[test]
fn requests_that_fail_validation_store_no_job() {
    let mut service = VideoCreationAppService::new(Config::new());
    let r = service.begin_video(&video_request(&[]), true, &work_dir());
    assert!(matches!(r, Err(DomainError::InvalidState(m)) if m == "No images provided"));
    let r = service.begin_video(&video_request(&["/definitely/not/here.jpg"]), true, &work_dir());
    assert!(matches!(r, Err(DomainError::FileNotFound)));
    let mut zero = video_request(&["/"]);
    zero.width = Some(0);
    zero.height = Some(10);
    zero.duration_per_image = Some(1);
    assert!(matches!(
        service.begin_video(&zero, true, &work_dir()),
        Err(DomainError::InvalidRange)
    ));
    let mut long = video_request(&["/", "/"]);
    long.width = Some(1);
    long.height = Some(1);
    long.duration_per_image = Some(u32::MAX);
    assert!(matches!(
        service.begin_video(&long, true, &work_dir()),
        Err(DomainError::InvalidRange)
    ));
    let r = service.begin_video(&video_request(&["/"]), false, &work_dir());
    assert!(matches!(r, Err(DomainError::IoError(m)) if m == "FFmpeg not found on system"));
    assert!(matches!(service.get_job_status("job_0"), Err(DomainError::FileNotFound)));
}

#[test]
fn beginning_with_known_presence_checks_in_order() {
    let mut service = VideoCreationAppService::new(Config::new());
    let request = video_request(&["a.jpg", "b.jpg"]);
    let r = service.begin_video_with(&request, &vec![true, false], true, &work_dir());
    assert!(matches!(r, Err(DomainError::FileNotFound)));
    let r = service.begin_video_with(&request, &vec![true], true, &work_dir());
    assert!(matches!(r, Err(DomainError::FileNotFound)));
    let r = service.begin_video_with(&request, &vec![true, true], false, &work_dir());
    assert!(matches!(r, Err(DomainError::IoError(m)) if m == "FFmpeg not found on system"));
    let mut long = video_request(&["a.jpg", "b.jpg"]);
    long.width = Some(1);
    long.height = Some(1);
    long.duration_per_image = Some(u32::MAX);
    let r = service.begin_video_with(&long, &vec![true, false], true, &work_dir());
    assert!(matches!(r, Err(DomainError::FileNotFound)));
    let r = service.begin_video_with(&long, &vec![true, true], false, &work_dir());
    assert!(matches!(r, Err(DomainError::InvalidRange)));
    let run = service.begin_video_with(&request, &vec![true, true], true, &work_dir()).unwrap();
    assert_eq!(run.job.request.frame_count(), 2);
    assert_eq!(run.job.request.video_id.as_str(), "video_42");
    assert_eq!(run.job.request.output_path.as_str(), "/out/video.mp4");
    assert_eq!(run.job.status, VideoCreationStatus::InProgress);
    match &run.pending {
        CreationAction::WriteFrameList(content) => {
            assert!(content.ends_with("b.jpg'\nduration 1\nfile '/work/b.jpg'\n"))
        }
        other => panic!("unexpected action {:?}", other),
    }
    let stored = service.get_job_status(run.job.id.as_str()).unwrap();
    assert_eq!(stored.status, "InProgress");
}

#[test]
fn the_request_spec_overrides_the_configuration() {
    let mut config = Config::new();
    config.default_image_width = 320;
    config.default_image_height = 200;
    config.default_duration_per_image = 4;
    let mut service = VideoCreationAppService::new(config);
    let run = service.begin_video(&video_request(&["/"]), true, &work_dir()).unwrap();
    assert_eq!(
        run.job.request.image_spec,
        ImageSpec { width: 320, height: 200, duration_seconds: 4 }
    );
    let mut custom = video_request(&["/"]);
    custom.width = Some(1920);
    custom.height = Some(1080);
    custom.duration_per_image = Some(2);
    let run = service.begin_video(&custom, true, &work_dir()).unwrap();
    assert_eq!(
        run.job.request.image_spec,
        ImageSpec { width: 1920, height: 1080, duration_seconds: 2 }
    );
}

#[test]
fn requests_in_quick_succession_each_get_their_own_job() {
    let mut service = VideoCreationAppService::new(Config::new());
    let first = service.begin_video(&video_request(&["/"]), true, &work_dir()).unwrap();
    let second = service.begin_video(&video_request(&["/", "/"]), true, &work_dir()).unwrap();
    assert_ne!(first.job.id, second.job.id);
    let one = service.get_job_status(first.job.id.as_str()).unwrap();
    let two = service.get_job_status(second.job.id.as_str()).unwrap();
    assert_eq!(one.progress.unwrap().total_frames, 1);
    assert_eq!(two.progress.unwrap().total_frames, 2);
}

#[test]
fn a_conversion_that_has_not_ended_cannot_be_finished() {
    let mut service = VideoCreationAppService::new(Config::new());
    let run = service.begin_video(&video_request(&["/"]), true, &work_dir()).unwrap();
    let r = service.finish_video(run);
    assert!(matches!(r, Err(DomainError::InvalidState(m)) if m == "Conversion not finished"));
}

#[test]
fn job_status_of_an_unknown_job_is_not_found() {
    let service = VideoCreationAppService::new(Config::new());
    assert!(matches!(service.get_job_status("job_1"), Err(DomainError::FileNotFound)));
    assert!(matches!(service.get_job_status(""), Err(DomainError::FileNotFound)));
}

#[test]
fn service_validation_of_images() {
    let service = VideoCreationAppService::new(Config::new());
    assert_eq!(service.validate_images(&[]).unwrap(), true);
    assert!(matches!(
        service.validate_images(&["missing.jpg".to_string()]),
        Err(DomainError::FileNotFound)
    ));
    assert!(matches!(
        service.validate_images(&["/".to_string()]),
        Err(DomainError::InvalidContentType)
    ));
}

fn finished_job() -> VideoCreationJob {
    let request = VideoCreationRequest::with_presence(
        vec![FilePath::new("a.jpg".to_string()), FilePath::new("b.jpg".to_string())],
        &vec![true, true],
        FilePath::new("o.mp4".to_string()),
        ImageSpec::new(10, 10, 3).unwrap(),
        VideoId::new("video_3".to_string()),
    )
    .unwrap();
    let mut job = VideoCreationJob::new_at(
        VideoCreationJobId::new("job_5".to_string()),
        request,
        Timestamp::new(1000, 250_000_000).unwrap(),
    );
    job.start().unwrap();
    job.update_progress(1).unwrap();
    job
}

#[test]
fn status_response_reports_every_field() {
    let mut job = finished_job();
    let running = status_response(&job);
    assert_eq!(running.job_id, "job_5");
    assert_eq!(running.video_id, "video_3");
    assert_eq!(running.status, "InProgress");
    let p = running.progress.unwrap();
    assert_eq!((p.current_frame, p.total_frames, p.percentage_basis_points), (1, 2, 5000));
    assert_eq!(p.estimated_time_remaining, None);
    assert_eq!(running.created_at, "1000250");
    assert_eq!(running.completed_at, None);
    assert_eq!(running.error_message, None);
    assert_eq!(running.duration_seconds, None);

    job.fail_at("broken".to_string(), Timestamp::new(1062, 0).unwrap()).unwrap();
    let failed = status_response(&job);
    assert_eq!(failed.status, "Failed");
    assert_eq!(failed.completed_at.as_deref(), Some("1062000"));
    assert_eq!(failed.error_message.as_deref(), Some("broken"));
    assert_eq!(failed.duration_seconds, Some(61));
}

#[test]
fn creation_response_tells_frames_and_playing_time() {
    let job = finished_job();
    let r = creation_response(&job).unwrap();
    assert_eq!(r.job_id, "job_5");
    assert_eq!(r.video_id, "video_3");
    assert_eq!(r.status, "InProgress");
    assert_eq!(r.total_frames, 2);
    assert_eq!(r.estimated_duration, 6);
    assert_eq!(r.created_at, "1000250");
    assert_eq!(job.status, VideoCreationStatus::InProgress);
}
